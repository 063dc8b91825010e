pub mod auth;
pub mod config;
pub mod handlers;
pub mod ident;
pub mod laws;
pub mod media_type;
pub mod response;
pub mod store;

pub use auth::RequiresAuthentication;
pub use config::UploaderConfiguration;
pub use handlers::handle_upload;
pub use handlers::index;
pub use handlers::retrieve_media;
pub use handlers::rocket;
pub use handlers::upload_media;
pub use handlers::App;
pub use media_type::extension_for;
pub use response::internal_server_err;
pub use response::not_found;
pub use response::unauthorized;
pub use response::UploadResponse;
pub use store::MediaStore;
