pub mod u;
