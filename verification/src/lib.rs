pub mod controller;
pub mod deployment;
pub mod frp;
pub mod hash;
pub mod k8s;
pub mod laws;
pub mod legacy;
pub mod proxy_order;
pub mod resources;
pub mod strmap;
pub mod v1alpha1;
