//! The shortest way to start a TUS upload.
use vstd::prelude::*;
use crate::config::Config;
use crate::protocol::tus::upload::TusUploadBuilder;

verus! {

/// A builder for uploading `file` to `endpoint`, with the token of the
/// development settings.
pub fn upload_tus(file: String, endpoint: String, env_config: &Config) -> (r: TusUploadBuilder)
    ensures
        r.source == file,
        r.config.endpoint == endpoint,
        crate::http::headers_view(r.config.headers@) == seq![("token"@, env_config.token@)],
        r.config.tus_version@ == "1.0.0"@,
        r.options.metadata@.len() == 0,
{
    TusUploadBuilder::new(file, endpoint, env_config)
}

} // verus!
