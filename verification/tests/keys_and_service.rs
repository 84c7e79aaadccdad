use auth_service::banned_token_key;
use auth_service::email::Email;
use auth_service::grpc_server::GrpcService;
use auth_service::two_fa_code_key;
use auth_service::ErrorResponse;

#[test]
fn banned_token_key_carries_the_prefix() {
    assert_eq!("banned_token:abc.def.ghi", banned_token_key::get_key("abc.def.ghi"));
    assert_eq!("banned_token:", banned_token_key::get_key(""));
}

#[test]
fn two_fa_code_key_carries_the_prefix() {
    let email = Email::parse("test@email.com").unwrap();
    assert_eq!("two_fa_code:test@email.com", two_fa_code_key::get_key(&email));
}

#[test]
fn grpc_verify_jwt_acknowledges() {
    let service = GrpcService;
    let reply = service.verify_jwt();
    assert!(reply.success);
    assert_eq!("Success", reply.message);
}

#[test]
fn error_response_carries_its_text() {
    let body = ErrorResponse {
        error: "Invalid credentials".to_owned(),
    };
    assert_eq!("Invalid credentials", body.error);
}
