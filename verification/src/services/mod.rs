pub mod poller;

pub use poller::PollUpdate;
