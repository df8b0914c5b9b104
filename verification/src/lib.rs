pub mod config;
pub mod text;
pub mod domain;
pub mod time;
pub mod ids;
pub mod number;
pub mod resource_pool;
pub mod identity;
pub mod foster_dispatch;
pub mod control_plane;
pub mod http_status;
pub mod enrollment;
pub mod recovery;
pub mod public_portal;
pub mod resource_admin;
pub mod host_admin;
pub mod onboarding;
pub mod agent_reconciliation;
pub mod agent_gateway;
pub mod scheduler;
