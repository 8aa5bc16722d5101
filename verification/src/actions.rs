pub mod deploy_descriptor;
pub mod descriptor_laws;
pub mod http;
pub mod probe;
pub mod ssh_client;
