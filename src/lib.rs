//! Orchestration core of a broadcast terminal: a model of the capture, mix,
//! encode and publish media graph, the plans that reshape it while it runs,
//! the loudness metering envelope, and the settings and ingest selection
//! around it.

pub mod text;
pub mod metering;
pub mod graph;
pub mod plan;
pub mod stream;
pub mod setting;
pub mod ingest;
pub mod endpoint;
pub mod view;
pub mod font;
pub mod frame;
