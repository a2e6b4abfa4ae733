use grok_privacy::file_utils::queue::default_max_age;
use grok_privacy::file_utils::s3::{presign_get_url, S3StaticCredentials};
use grok_privacy::file_utils::storage_client::StorageClient;
use grok_privacy::file_utils::trace_context::{current_traceparent, span_from_meta_traceparent};
use grok_privacy::file_utils::DATA_UPLOADS_COMPILED_IN;
use grok_privacy::shell::managed_config::{
    current_serving_identity, has_principal, is_fetch_enabled, ServingIdentity,
    MANAGED_CONFIG_COMPILED_IN,
};
use grok_privacy::shell::privacy_build::{
    blocks_extension, REMOVED_MESSAGE, PASSIVE_UPLOADS_COMPILED_IN, PRIVACY_BUILD, REMOTE_CONTROL_COMPILED_IN,
};
use grok_privacy::shell::remote::client::{models_list_url, REMOTE_BACKEND_COMPILED_IN};
use grok_privacy::shell::remote::skills_client::{ProductSkillsCatalog, REMOTE_SKILLS_COMPILED_IN};
use grok_privacy::shell::upload::turn::UploadOutcome;
use grok_privacy::time::Duration;

#[test]
fn gcs_uploads_are_removed() {
    assert!(!DATA_UPLOADS_COMPILED_IN);
}

#[test]
fn queue_constructor_starts_no_worker_or_spill() {
    assert!(!DATA_UPLOADS_COMPILED_IN);
    assert_eq!(default_max_age(), Duration::zero());
}

#[test]
fn presigning_is_removed() {
    let creds = S3StaticCredentials {
        access_key_id: "unused".into(),
        secret_access_key: "unused".into(),
    };
    assert!(presign_get_url(
        "unused",
        None,
        &creds,
        "unused",
        "unused",
        Duration::from_secs(1),
    )
    .is_err());
}

#[test]
fn storage_client_has_no_network_path() {
    let client = StorageClient::new("http://127.0.0.1:1", "unused");
    assert!(client.storage_breaker_is_open());
    assert!(client.upload("x", b"secret", "text/plain").is_err());
    assert!(client.download_blob("x", "unused").is_err());
}

#[test]
fn distributed_trace_context_is_permanently_disabled() {
    assert!(current_traceparent().is_none());
    assert!(span_from_meta_traceparent(&serde_json::Map::new()).is_none());
}

#[test]
fn managed_configuration_is_permanently_inert() {
    assert!(!MANAGED_CONFIG_COMPILED_IN);
    assert!(!is_fetch_enabled());
    assert!(!has_principal());
    assert_eq!(current_serving_identity(), ServingIdentity::Unmanaged);
}

#[test]
fn privacy_invariants_are_compile_time_off() {
    assert!(PRIVACY_BUILD);
    assert!(!REMOTE_CONTROL_COMPILED_IN);
    assert!(!PASSIVE_UPLOADS_COMPILED_IN);
}

#[test]
fn upload_and_cloud_extensions_are_blocked_but_inference_is_not() {
    for method in [
        "x.ai/cloud/env/create",
        "x.ai/feedback",
        "x.ai/share_session",
        "x.ai/consent/record",
    ] {
        assert!(blocks_extension(method), "{method}");
    }
    assert!(!blocks_extension("x.ai/models/list"));
    assert!(!blocks_extension("x.ai/session/state"));
}

/// Stand-ins for the endpoint configuration and auth kind that the model
/// list URL ignores.
#[derive(Default)]
struct EndpointsConfig;

enum ModelFetchAuth {
    Session,
}

#[test]
fn cloud_backend_is_permanently_inert() {
    assert!(!REMOTE_BACKEND_COMPILED_IN);
    assert_eq!(
        models_list_url(&EndpointsConfig::default(), ModelFetchAuth::Session),
        "privacy://remote-model-catalog-disabled"
    );
}

#[test]
fn server_delivered_skills_are_disabled() {
    assert!(!REMOTE_SKILLS_COMPILED_IN);
    assert!(ProductSkillsCatalog::default()
        .to_skill_infos::<String>()
        .is_empty());
}

#[test]
fn trace_sender_is_absent() {
    assert!(!PASSIVE_UPLOADS_COMPILED_IN);
}

#[test]
fn no_upload_can_be_confirmed() {
    assert!(!UploadOutcome::Confirmed.is_confirmed());
}

#[test]
fn removed_extension_methods_reply_with_internal_error() {
    for err in [
        grok_privacy::shell::extensions::handle::<(), (), ()>(&(), &()).unwrap_err(),
        grok_privacy::shell::rollout::handle::<(), (), ()>(&(), &()).unwrap_err(),
    ] {
        assert_eq!(err.code, agent_client_protocol::ErrorCode::INTERNAL_ERROR);
        assert_eq!(err.data, Some(serde_json::Value::String(REMOVED_MESSAGE.to_owned())));
    }
}
