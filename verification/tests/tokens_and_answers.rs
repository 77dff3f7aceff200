use captive_portal::security::auth_jwt::{create_claims, create_claims_at};
use captive_portal::utils::error::Error;
use captive_portal::utils::responses::Response;

#[test]
fn claims_run_out_after_the_hours() {
    let c = create_claims_at("id1", 2, 1_700_000_000);
    assert_eq!(c.sub, "id1");
    assert_eq!(c.exp, 1_700_007_200);
    let c = create_claims_at("id1", 0, 5);
    assert_eq!(c.exp, 5);
}

#[test]
fn claims_now_use_the_clock() {
    let c = create_claims("id1", 1);
    assert_eq!(c.sub, "id1");
    assert!(c.exp > 1_600_000_000 + 3_600);
}

#[test]
fn errors_carry_message_and_status() {
    let e = Error::new_with_custom("boom", "now".to_string(), 418);
    assert_eq!(e.err, "boom");
    assert_eq!(e.time, "now");
    assert_eq!(e.status, 418);
    let e = Error::new_unauthorized("who");
    assert_eq!(e.err, "who");
    assert_eq!(e.status, 401);
    assert!(!e.time.is_empty());
    assert_eq!(Error::new_bad_request("bad").status, 400);
    assert_eq!(Error::new_not_found("gone").status, 404);
    assert_eq!(Error::new_not_found("gone").err, "gone");
}

#[test]
fn responses_carry_status_and_body() {
    assert_eq!(Response::new_custom(299, "b"), (299, "b"));
    assert_eq!(Response::new_ok(1), (200, 1));
    assert_eq!(Response::new_created("x".to_string()), (201, "x".to_string()));
    assert_eq!(Response::new_accepted(()), (202, ()));
    assert_eq!(Response::new_custom_status(204), 204);
}
