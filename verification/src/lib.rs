//! A non-blocking frame-processing pipeline: a capture source feeding a
//! bounded newest-wins frame channel, workers that each own one in-flight
//! request at a time, a per-tick coordinator, and a pure, lossless
//! pixel-format converter for texture uploads.

pub mod analysis;
pub mod channel;
pub mod coordinator;
pub mod frame;
pub mod source;
pub mod texture;
pub mod worker;

pub use analysis::AnalysisResult;
pub use analysis::WorkerKind;
pub use channel::FrameChannel;
pub use coordinator::Coordinator;
pub use coordinator::WorkerSlot;
pub use frame::Frame;
pub use frame::PixelFormat;
pub use source::CaptureEvent;
pub use source::CaptureStep;
pub use source::ControlMsg;
pub use source::FrameSource;
pub use texture::TextureType;
pub use texture::TextureUploader;
pub use texture::UploadBuffer;
pub use worker::AsyncWorker;
pub use worker::DispatchError;
pub use worker::WorkerState;
