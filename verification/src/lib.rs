//! Tracking of image usage while commands are recorded, and the synchronization that it asks
//! for: pipeline barriers between two uses of a range of an image, a closing barrier when
//! recording ends, and semaphores and a fence when the recorded work is submitted to a queue.
//!
//! The traits [`image::Image`] and [`view::ImageView`] say what is asked of an image and of
//! an image view. [`tracking::TrackedImage`] is the protocol between an image and whoever
//! records commands. [`manager::StatesManager`] is the state table that the protocol works
//! on; [`states`] holds what the table means and what each operation returns, and [`laws`]
//! what follows from it.

mod assoc;
pub mod device;
pub mod format;
pub mod image;
pub mod laws;
pub mod layout;
pub mod manager;
pub mod request;
pub mod sampler;
pub mod states;
pub mod sync;
pub mod sys;
pub mod tracking;
pub mod view;
