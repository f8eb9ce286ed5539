use fobnail::coap::{Endpoint, ResponseCode};

#[test]
fn success_codes() {
    for code in [
        ResponseCode::Created,
        ResponseCode::Deleted,
        ResponseCode::Valid,
        ResponseCode::Changed,
        ResponseCode::Content,
        ResponseCode::Continue,
    ] {
        assert!(code.is_success());
    }
}

#[test]
fn error_codes() {
    for code in [
        ResponseCode::BadRequest,
        ResponseCode::NotFound,
        ResponseCode::InternalServerError,
        ResponseCode::GatewayTimeout,
        ResponseCode::Unknown,
    ] {
        assert!(!code.is_success());
    }
}

#[test]
fn endpoint_paths() {
    assert_eq!(Endpoint::Attest.path(), "/attest");
    assert_eq!(Endpoint::Ek.path(), "/ek");
    assert_eq!(Endpoint::Aik.path(), "/aik");
    assert_eq!(Endpoint::Metadata.path(), "/metadata");
}
