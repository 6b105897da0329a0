//! Capability resolution, constraint validation, and deterministic assembly
//! of machine-initialization scripts, together with the CloudWatch agent
//! configuration model.

pub mod cloudwatch;
pub mod ec2;
