pub mod clock;
pub mod dispatch;
pub mod icon;
pub mod metrics;
pub mod protocol;
pub mod state;
pub mod strutil;
pub mod supervisor;
pub mod tools;
