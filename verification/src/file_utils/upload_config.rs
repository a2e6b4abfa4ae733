//! Trace-export configuration shapes shared by the storage facades.
use crate::text::copy_option_string;
use vstd::prelude::*;

verus! {

/// How trace artifacts would be uploaded. The privacy build only ever
/// constructs the direct form, and nothing consumes it.
#[derive(Debug, Clone)]
pub enum UploadMethod {
    Direct { service_account_key: Option<String> },
}

/// Where and how trace artifacts would be exported.
#[derive(Debug, Clone)]
pub struct TraceExportConfig {
    pub bucket_url: Option<String>,
    pub service_account_key: Option<String>,
    pub upload_method: UploadMethod,
    pub prefix_dir: Option<String>,
    pub gcs_prefix: Option<String>,
    pub absolute_paths: bool,
    pub archive_name_override: Option<String>,
}

} // verus!

verus! {

/// A configuration with no destination, credentials or naming set: what the
/// privacy build's resolvers hand out.
pub open spec fn is_unset_config(c: TraceExportConfig) -> bool {
    &&& c.bucket_url is None
    &&& c.service_account_key is None
    &&& c.upload_method matches UploadMethod::Direct { service_account_key } && service_account_key is None
    &&& c.prefix_dir is None
    &&& c.gcs_prefix is None
    &&& !c.absolute_paths
    &&& c.archive_name_override is None
}

/// The configuration with nothing set.
pub fn unset_config() -> (c: TraceExportConfig)
    ensures
        is_unset_config(c),
{
    TraceExportConfig {
        bucket_url: None,
        service_account_key: None,
        upload_method: UploadMethod::Direct { service_account_key: None },
        prefix_dir: None,
        gcs_prefix: None,
        absolute_paths: false,
        archive_name_override: None,
    }
}

/// A copy of a configuration, equal to it.
pub fn copy_config(c: &TraceExportConfig) -> (r: TraceExportConfig)
    ensures
        r == *c,
{
    let upload_method = match &c.upload_method {
        UploadMethod::Direct { service_account_key } => UploadMethod::Direct {
            service_account_key: copy_option_string(service_account_key),
        },
    };
    TraceExportConfig {
        bucket_url: copy_option_string(&c.bucket_url),
        service_account_key: copy_option_string(&c.service_account_key),
        upload_method,
        prefix_dir: copy_option_string(&c.prefix_dir),
        gcs_prefix: copy_option_string(&c.gcs_prefix),
        absolute_paths: c.absolute_paths,
        archive_name_override: copy_option_string(&c.archive_name_override),
    }
}

} // verus!
