use axum_error_sets::codes::{
    BadGateway, BadRequest, Conflict, ExpectationFailed, FailedDependency, Forbidden,
    GatewayTimeout, Gone, HttpVersionNotSupported, ImATeapot, InsufficientStorage, Internal,
    LengthRequired, Locked, LoopDetected, MethodNotAllowed, MisdirectedRequest,
    NetworkAuthenticationRequired, NotAcceptable, NotExtended, NotFound, NotImplemented,
    PayloadTooLarge, PaymentRequired, PreconditionFailed, PreconditionRequired,
    ProxyAuthenticationRequired, RangeNotSatisfiable, RequestHeaderFieldsTooLarge,
    RequestTimeout, ServiceUnavailable, TooEarly, TooManyRequests, Unauthorized,
    UnavailableForLegalReasons, UnprocessableEntity, UnsupportedMediaType, UpgradeRequired,
    UriTooLong, VariantAlsoNegotiates,
};
use axum_error_sets::handlers::{another_fn, subset, unhandled, MyApiError};
use axum_error_sets::result_ext::ApiResultExt as ErrorSetResultExt;
use axum_error_sets::{
    ApiResponse, ApiResultExt, ErrorSet, ErrorSetValue, HttpResponse, ResultStatusExt, Status,
    StatusProvider, StatusProviderExt, StatusResultExt, StatusSet,
};

fn body_response(status: u16) -> HttpResponse {
    http::Response::builder()
        .status(status)
        .body(axum_core::body::Body::empty())
        .unwrap()
}

fn status_of(code: u16) -> Status {
    Status::from_u16(code).unwrap()
}

#[test]
fn status_from_u16_accepts_exactly_100_to_999() {
    assert!(Status::from_u16(99).is_none());
    assert!(Status::from_u16(0).is_none());
    assert_eq!(Status::from_u16(100).unwrap().as_u16(), 100);
    assert_eq!(Status::from_u16(404).unwrap().as_u16(), 404);
    assert_eq!(Status::from_u16(999).unwrap().as_u16(), 999);
    assert!(Status::from_u16(1000).is_none());
    assert!(Status::from_u16(u16::MAX).is_none());
}

#[test]
fn wrappers_carry_their_codes() {
    assert_eq!(BadRequest::<()>::status_code().as_u16(), 400);
    assert_eq!(Unauthorized::<()>::status_code().as_u16(), 401);
    assert_eq!(Forbidden::<()>::status_code().as_u16(), 403);
    assert_eq!(NotFound::<()>::status_code().as_u16(), 404);
    assert_eq!(NotAcceptable::<()>::status_code().as_u16(), 406);
    assert_eq!(Conflict::<()>::status_code().as_u16(), 409);
    assert_eq!(UnprocessableEntity::<()>::status_code().as_u16(), 422);
    assert_eq!(TooManyRequests::<()>::status_code().as_u16(), 429);
    assert_eq!(Internal::<()>::status_code().as_u16(), 500);
    assert_eq!(BadGateway::<()>::status_code().as_u16(), 502);
    assert_eq!(ServiceUnavailable::<()>::status_code().as_u16(), 503);
    assert_eq!(GatewayTimeout::<()>::status_code().as_u16(), 504);
}

#[test]
fn every_wrapper_code_is_its_name() {
    let codes = <(
        PaymentRequired,
        MethodNotAllowed,
        ProxyAuthenticationRequired,
        RequestTimeout,
        Gone,
        LengthRequired,
        PreconditionFailed,
        PayloadTooLarge,
        UriTooLong,
        UnsupportedMediaType,
        RangeNotSatisfiable,
        ExpectationFailed,
        ImATeapot,
        MisdirectedRequest,
        Locked,
        FailedDependency,
    ) as StatusSet>::codes();
    assert_eq!(codes, vec![402, 405, 407, 408, 410, 411, 412, 413, 414, 415, 416, 417, 418, 421, 423, 424]);
    let codes = <(
        TooEarly,
        UpgradeRequired,
        PreconditionRequired,
        RequestHeaderFieldsTooLarge,
        UnavailableForLegalReasons,
        NotImplemented,
        HttpVersionNotSupported,
        VariantAlsoNegotiates,
        InsufficientStorage,
        LoopDetected,
        NotExtended,
        NetworkAuthenticationRequired,
    ) as StatusSet>::codes();
    assert_eq!(codes, vec![425, 426, 428, 431, 451, 501, 505, 506, 507, 508, 510, 511]);
}

#[test]
fn set_codes_follow_tuple_order() {
    assert_eq!(<() as StatusSet>::codes(), Vec::<u16>::new());
    assert_eq!(<(NotFound,) as StatusSet>::codes(), vec![404]);
    assert_eq!(<(NotFound, Internal<String>) as StatusSet>::codes(), vec![404, 500]);
    assert_eq!(<(Internal, NotFound) as StatusSet>::codes(), vec![500, 404]);
    assert_eq!(<(Unauthorized, NotFound, Conflict) as StatusSet>::codes(), vec![401, 404, 409]);
}

#[test]
fn with_status_wraps_only_the_error() {
    let ok: Result<u32, String> = Ok(7);
    assert!(matches!(ok.with_status::<BadRequest<String>>(), Ok(7)));
    let err: Result<u32, String> = Err("bad".to_string());
    let wrapped = err.with_status::<BadRequest<String>>().unwrap_err();
    assert_eq!(wrapped.0, "bad");
}

#[test]
fn into_status_converts_then_wraps() {
    let err: Result<(), &str> = Err("error");
    let wrapped: Result<(), BadRequest<String>> = err.into_status::<BadRequest<String>, String>();
    assert_eq!(wrapped.unwrap_err().0, "error".to_string());
    let ok: Result<u8, &str> = Ok(1);
    assert!(matches!(ok.into_status::<NotFound<String>, String>(), Ok(1)));
}

#[test]
fn change_status_keeps_the_body() {
    let err: Result<(), Forbidden<String>> = Err(Forbidden("hidden".into()));
    let changed = err.change_status::<NotFound<String>>().unwrap_err();
    assert_eq!(changed.0, "hidden");
    assert_eq!(NotFound::<String>::status_code().as_u16(), 404);
    let back = Err::<(), NotFound<String>>(changed).change_status::<Forbidden<String>>().unwrap_err();
    assert_eq!(back.0, "hidden");
    let ok: Result<i32, Forbidden<String>> = Ok(-3);
    assert!(matches!(ok.change_status::<NotFound<String>>(), Ok(-3)));
}

#[test]
fn map_status_changes_the_body_only() {
    let err: Result<(), Internal<u32>> = Err(Internal(20));
    let mapped = err.map_status::<_, String, Internal<String>>(|n: u32| format!("n={}", n + 1)).unwrap_err();
    assert_eq!(mapped.0, "n=21");
    let ok: Result<u8, Internal<u32>> = Ok(9);
    assert!(matches!(ok.map_status::<_, u64, Internal<u64>>(|n: u32| n as u64), Ok(9)));
    let err: Result<(), Internal<&str>> = Err(Internal("x"));
    let into = err.map_status_into::<String, Internal<String>>().unwrap_err();
    assert_eq!(into.0, "x".to_string());
}

#[test]
fn wrapper_map_keeps_the_code() {
    let mapped: Conflict<usize> = Conflict("four").map::<usize, Conflict<usize>, _>(|s: &str| s.len());
    assert_eq!(mapped.0, 4);
    assert_eq!(Conflict::<usize>::status_code().as_u16(), 409);
}

#[test]
fn status_result_ext_picks_each_code() {
    let e = || -> Result<(), &'static str> { Err("e") };
    assert_eq!(e().into_bad_request().unwrap_err().0, "e");
    assert_eq!(e().into_unauthorized().unwrap_err().0, "e");
    assert_eq!(e().into_forbidden().unwrap_err().0, "e");
    assert_eq!(e().into_not_found().unwrap_err().0, "e");
    assert_eq!(e().into_conflict().unwrap_err().0, "e");
    assert_eq!(e().into_unprocessable_entity().unwrap_err().0, "e");
    assert_eq!(e().into_too_many_requests().unwrap_err().0, "e");
    assert_eq!(e().into_internal().unwrap_err().0, "e");
    assert_eq!(e().into_bad_gateway().unwrap_err().0, "e");
    assert_eq!(e().into_service_unavailable().unwrap_err().0, "e");
    assert_eq!(e().into_gateway_timeout().unwrap_err().0, "e");
    let ok: Result<u8, &str> = Ok(5);
    assert!(matches!(ok.into_not_found(), Ok(5)));
}

#[test]
fn api_response_keeps_its_parts() {
    let r: ApiResponse<(NotFound<HttpResponse>, BadRequest<HttpResponse>)> =
        ApiResponse::new(NotFound(body_response(200)));
    let (response, code) = r.into_parts();
    assert_eq!(code.as_u16(), 404);
    assert_eq!(response.status().as_u16(), 200);

    let r: ApiResponse<(Conflict,)> = ApiResponse::new_unchecked(body_response(201), status_of(418));
    let (response, code) = r.into_parts();
    assert_eq!(code.as_u16(), 418);
    assert_eq!(response.status().as_u16(), 201);
}

#[test]
fn api_response_sends_the_wrapper_code_whatever_the_body_says() {
    let r: ApiResponse<(NotFound<HttpResponse>,)> = NotFound(body_response(200)).into_set();
    let response = r.into_response();
    assert_eq!(response.status().as_u16(), 404);

    let r: ApiResponse<(Internal<HttpResponse>, NotFound<HttpResponse>)> =
        ApiResponse::new(Internal(body_response(404)));
    assert_eq!(r.into_response().status().as_u16(), 500);
}

#[test]
fn api_response_moves_into_a_superset() {
    let small: ApiResponse<(NotFound<HttpResponse>,)> = ApiResponse::new(NotFound(body_response(202)));
    let big: ApiResponse<(Forbidden<HttpResponse>, NotFound<HttpResponse>)> = small.into_superset();
    let (response, code) = big.into_parts();
    assert_eq!(code.as_u16(), 404);
    assert_eq!(response.status().as_u16(), 202);

    let err: Result<(), ApiResponse<(NotFound<HttpResponse>,)>> =
        Err(ApiResponse::new(NotFound(body_response(200))));
    let grown: Result<(), ApiResponse<(Forbidden, NotFound)>> = err.into_superset();
    assert_eq!(grown.unwrap_err().into_parts().1.as_u16(), 404);
    let ok: Result<u8, ApiResponse<(NotFound,)>> = Ok(3);
    assert!(matches!(ok.into_superset::<(Forbidden, NotFound)>(), Ok(3)));
}

#[test]
fn error_set_constructors() {
    let e: ErrorSet<String, (NotFound, Internal)> = ErrorSet::new_with::<Internal>("boom".to_string());
    assert_eq!(e.status_code().as_u16(), 500);
    assert_eq!(e.value(), "boom");

    let e: ErrorSet<String, (NotFound, Internal)> = ErrorSet::new(NotFound("gone"));
    assert_eq!(e.status_code().as_u16(), 404);
    assert_eq!(e.value(), "gone");

    let e: ErrorSet<u8, (Conflict,)> = ErrorSet::new_unchecked(4, status_of(503));
    assert_eq!(e.into_parts().1.as_u16(), 503);
}

#[test]
fn error_set_value_changes_keep_the_code() {
    let e: ErrorSet<u32, (Conflict, NotFound)> = ErrorSet::new_with::<Conflict>(10);
    let mut e = e.map_value(|v: u32| v * 3);
    assert_eq!(*e.value(), 30);
    *e.value_mut() += 1;
    assert_eq!(*e.value(), 31);
    assert_eq!(e.status_code().as_u16(), 409);
    let (v, code) = e.into_parts();
    assert_eq!((v, code.as_u16()), (31, 409));
}

#[test]
fn error_set_superset_clone_and_eq() {
    let e: ErrorSet<String, (NotFound,)> = ErrorSet::new_with::<NotFound>("a".to_string());
    let c = e.clone();
    assert!(c == e);
    let other: ErrorSet<String, (NotFound,)> = ErrorSet::new_unchecked("a".to_string(), status_of(500));
    assert!(other != e);
    let big: ErrorSet<String, (Internal, NotFound)> = e.into_superset();
    assert_eq!(big.status_code().as_u16(), 404);
    assert_eq!(big.value(), "a");

    let r: Result<(), ErrorSet<String, (NotFound,)>> = Err(c);
    let grown: Result<(), ErrorSet<String, (Internal, NotFound)>> = ErrorSetResultExt::into_superset(r);
    assert_eq!(grown.unwrap_err().status_code().as_u16(), 404);
}

#[test]
fn handler_answers_not_found() {
    assert!(another_fn().is_ok());
    assert!(subset().is_ok());
    assert!(unhandled().is_ok());
    let err = axum_error_sets::handlers::test().unwrap_err();
    assert_eq!(err.status_code().as_u16(), 404);
    let response = err.into_response();
    assert_eq!(response.status().as_u16(), 404);
}

#[test]
fn error_value_response_uses_the_given_code() {
    let response = MyApiError::new("nope").into_response_with(status_of(409));
    assert_eq!(response.status().as_u16(), 409);
    let from_fmt: MyApiError = std::fmt::Error.into();
    let response = from_fmt.into_response_with(status_of(502));
    assert_eq!(response.status().as_u16(), 502);
}

#[test]
fn splitting_and_rebuilding_gives_back_the_parts() {
    let r: ApiResponse<(NotFound,)> = ApiResponse::new(NotFound(body_response(204)));
    let (response, code) = r.into_parts();
    let rebuilt: ApiResponse<(NotFound,)> = ApiResponse::new_unchecked(response, code);
    let (response, code) = rebuilt.into_parts();
    assert_eq!((response.status().as_u16(), code.as_u16()), (204, 404));

    let e: ErrorSet<&str, (Gone,)> = ErrorSet::new_with::<Gone>("old");
    let (v, code) = e.clone().into_parts();
    assert!(ErrorSet::new_unchecked(v, code) == e);
}

#[test]
fn a_set_is_read_without_its_order() {
    let mut a = <(NotFound, Internal, Conflict) as StatusSet>::codes();
    let mut b = <(Conflict, NotFound, Internal) as StatusSet>::codes();
    a.sort();
    b.sort();
    assert_eq!(a, b);
    let r: ApiResponse<(Internal, NotFound)> = ApiResponse::new(NotFound(body_response(200)));
    let swapped: ApiResponse<(NotFound, Internal)> = r.into_superset();
    assert_eq!(swapped.into_response().status().as_u16(), 404);
}

#[test]
fn wrappers_convert_from_and_deref_to_their_body() {
    let w: NotFound<String> = "gone".to_string().into();
    assert_eq!(w.0, "gone");
    assert_eq!(w.len(), 4);
    assert_eq!(*Conflict(7u8), 7);
}

#[test]
fn error_sets_with_other_codes_differ() {
    let a: ErrorSet<u8, (NotFound, Conflict)> = ErrorSet::new_unchecked(1, status_of(404));
    let b: ErrorSet<u8, (NotFound, Conflict)> = ErrorSet::new_unchecked(1, status_of(409));
    let c: ErrorSet<u8, (NotFound, Conflict)> = ErrorSet::new_unchecked(1, status_of(404));
    assert!(a != b);
    assert!(a == c);
}

#[test]
fn map_keeps_identity_and_composes() {
    let same: Gone<u32> = Gone(5u32).map::<u32, Gone<u32>, _>(|x: u32| x);
    assert_eq!(same.0, 5);
    let twice: Gone<u64> = Gone(5u32)
        .map::<u32, Gone<u32>, _>(|x: u32| x + 1)
        .map::<u64, Gone<u64>, _>(|y: u32| (y as u64) * 10);
    let once: Gone<u64> = Gone(5u32).map::<u64, Gone<u64>, _>(|x: u32| ((x + 1) as u64) * 10);
    assert_eq!(twice.0, once.0);
}

#[test]
fn handler_error_carries_its_message() {
    let err = axum_error_sets::handlers::test().unwrap_err();
    let response = err.into_response();
    assert_eq!(response.status().as_u16(), 404);
    assert_eq!(
        response.headers().get("content-type").map(|v| v.to_str().unwrap().to_string()),
        Some("text/plain; charset=utf-8".to_string())
    );
}
