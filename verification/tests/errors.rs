use cargo_errors::{
    chain_error_with, error_response, from_description, human, internal, internal_error,
    std_error, CargoError, CargoResult, ChainError, NotFound, Unauthorized,
    DEFAULT_ERROR_STATUS,
};

fn details(e: &CargoError) -> (u16, Vec<String>) {
    let resp = e.response().expect("a response should be produced");
    let body: Vec<String> = resp.body.errors.iter().map(|s| s.detail.clone()).collect();
    (resp.status, body)
}

#[test]
fn human_response_discloses_description() {
    let (status, body) = details(&human("invalid name"));
    assert_eq!(status, DEFAULT_ERROR_STATUS);
    assert_eq!(body, vec!["invalid name".to_string()]);
}

#[test]
fn internal_response_is_none() {
    assert!(internal("db failure").response().is_none());
}

#[test]
fn internal_error_display_appends_detail() {
    let e = internal_error("save failed", "disk full");
    assert_eq!(e.display(), "save failed (disk full)");
    assert_eq!(e.description(), "save failed");
    assert!(!e.human());
    assert!(e.cause().is_none());
}

#[test]
fn chained_defers_to_human_cause() {
    let chained = CargoError::Chained {
        error: Box::new(internal("could not save")),
        cause: Box::new(human("invalid name")),
    };
    let (status, body) = details(&chained);
    assert_eq!(status, DEFAULT_ERROR_STATUS);
    assert_eq!(body, vec!["invalid name".to_string()]);
}

#[test]
fn not_found_response_is_fixed() {
    let sentinel = NotFound;
    let resp = sentinel.response().expect("sentinel always responds");
    assert_eq!(resp.status, 404);
    assert_eq!(resp.body.errors.len(), 1);
    assert_eq!(resp.body.errors[0].detail, "Not Found");
    assert_eq!(sentinel.description(), "not found");
    assert_eq!(sentinel.display(), "Not Found");
}

#[test]
fn not_found_as_cause_keeps_its_response() {
    let r: CargoResult<()> = Err(NotFound.into_error());
    let chained = r.chain_error(|| internal("while looking up")).unwrap_err();
    let (status, body) = details(&chained);
    assert_eq!(status, 404);
    assert_eq!(body, vec!["Not Found".to_string()]);
}

#[test]
fn unauthorized_response_is_fixed() {
    let sentinel = Unauthorized;
    let resp = sentinel.response().expect("sentinel always responds");
    assert_eq!(resp.status, 403);
    assert_eq!(resp.body.errors.len(), 1);
    assert_eq!(resp.body.errors[0].detail, "must be logged in to perform that action");
    assert_eq!(sentinel.description(), "unauthorized");
    assert_eq!(sentinel.display(), "must be logged in to perform that action");
    assert_eq!(Unauthorized.into_error().response().unwrap().status, 403);
}

#[test]
fn chain_error_passes_success_through() {
    let r: CargoResult<u32> = Ok(7);
    let out = r.chain_error(|| panic!("factory must not be consulted on success"));
    assert_eq!(out.unwrap(), 7);
}

#[test]
fn chain_error_keeps_original_as_cause() {
    let r: CargoResult<u32> = Err(internal("disk error"));
    let out = r.chain_error(|| human("could not save")).unwrap_err();
    assert_eq!(out.description(), human("could not save").description());
    assert_eq!(out.cause().expect("original kept").description(), "disk error");
    assert!(out.human());
}

#[test]
fn chain_error_on_some_passes_value_through() {
    let o: Option<&str> = Some("row");
    let out = o.chain_error(|| panic!("factory must not be consulted on success"));
    assert_eq!(out.unwrap(), "row");
}

#[test]
fn chain_error_on_none_has_no_cause() {
    let o: Option<u32> = None;
    let out = o.chain_error(|| internal("missing row")).unwrap_err();
    assert_eq!(out.description(), internal("missing row").description());
    assert!(out.cause().is_none());
    assert!(out.response().is_none());
}

#[test]
fn chain_error_with_runs_the_producer() {
    let ok = chain_error_with(|| Ok(3u8), || internal("unused"));
    assert_eq!(ok.unwrap(), 3);
    let failing: CargoResult<u8> = chain_error_with(
        || Err(internal("low level")),
        || human("high level"),
    );
    let e = failing.unwrap_err();
    assert_eq!(e.description(), "high level");
    assert_eq!(e.cause().unwrap().description(), "low level");
}

#[test]
fn legacy_display_renders_whole_chain() {
    let leaf: CargoResult<()> = Err(internal("leaf"));
    let mid = leaf.chain_error(|| internal("mid")).unwrap_err();
    let below_top: CargoResult<()> = Err(mid);
    let top = below_top.chain_error(|| internal("top")).unwrap_err();
    let rendered = std_error(top).display();
    assert_eq!(rendered, "top\nCaused by: mid\nCaused by: leaf");
}

#[test]
fn legacy_display_shows_details_of_causes() {
    let leaf: CargoResult<()> = Err(internal_error("save failed", "disk full"));
    let top = leaf.chain_error(|| internal("request failed")).unwrap_err();
    let rendered = std_error(top).display();
    assert_eq!(rendered, "request failed\nCaused by: save failed (disk full)");
}

#[test]
fn legacy_description_delegates() {
    let wrapped = std_error(human("invalid name"));
    assert_eq!(wrapped.description(), "invalid name");
}

#[test]
fn from_description_adopts_a_generic_error() {
    let e = from_description("connection reset".to_string());
    assert_eq!(e.description(), "connection reset");
    assert_eq!(e.display(), "connection reset");
    assert!(!e.human());
    assert!(e.cause().is_none());
    assert!(e.response().is_none());
}

#[test]
fn adopted_generic_error_can_be_chained() {
    let r: CargoResult<()> = Err(from_description("connection reset".to_string()));
    let out = r.chain_error(|| human("registry unreachable")).unwrap_err();
    let (status, body) = details(&out);
    assert_eq!(status, DEFAULT_ERROR_STATUS);
    assert_eq!(body, vec!["registry unreachable".to_string()]);
    assert_eq!(std_error(out).display(), "registry unreachable\nCaused by: connection reset");
}

#[test]
fn error_response_builds_one_detail_record() {
    let resp = error_response(500, "oops".to_string());
    assert_eq!(resp.status, 500);
    assert_eq!(resp.body.errors.len(), 1);
    assert_eq!(resp.body.errors[0].detail, "oops");
}

#[test]
fn no_human_layer_means_no_response() {
    let leaf: CargoResult<()> = Err(internal("leaf"));
    let mid = leaf.chain_error(|| internal("mid")).unwrap_err();
    let below_top: CargoResult<()> = Err(mid);
    let top = below_top.chain_error(|| internal("top")).unwrap_err();
    assert!(top.response().is_none());
}

#[test]
fn first_human_layer_walking_outward_wins() {
    let leaf: CargoResult<()> = Err(human("inner message"));
    let mid = leaf.chain_error(|| human("outer message")).unwrap_err();
    let (status, body) = details(&mid);
    assert_eq!(status, DEFAULT_ERROR_STATUS);
    assert_eq!(body, vec!["outer message".to_string()]);
}
