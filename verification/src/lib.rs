//! Verified decision logic of a container runtime that boots its workloads in virtual machines.

pub mod agent;
pub mod ch;
pub mod config;
pub mod decimal;
pub mod encoding;
pub mod factory;
pub mod k8s;
pub mod migration;
pub mod mount;
pub mod name_map;
pub mod network;
pub mod path;
pub mod rootfs;
pub mod storage;
pub mod text;
pub mod volume;
pub mod vsock;
pub mod vsock_forward;
