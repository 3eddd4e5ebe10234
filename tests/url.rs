use haruhi::url::{Param, RequestContext, StrRef, UrlInfo};

fn texts(req: &RequestContext, refs: &[StrRef]) -> Vec<String> {
    refs.iter().map(|r| req.text(*r).to_string()).collect()
}

fn param_texts(req: &RequestContext, p: &Param) -> (Option<String>, Option<String>) {
    (
        p.name.map(|r| req.text(r).to_string()),
        p.value.map(|r| req.text(r).to_string()),
    )
}

#[test]
fn path_segments_and_params_of_admin_url() {
    let mut req = RequestContext::new("/admin/new?q=something".to_string());
    let path = req.path();
    assert_eq!(req.text(path), "/admin/new");
    let parts = req.parts();
    assert_eq!(texts(&req, &parts), vec!["", "admin", "new?q=something"]);
    let params = req.params();
    assert_eq!(params.len(), 1);
    assert_eq!(
        param_texts(&req, &params[0]),
        (Some("q".to_string()), Some("something".to_string()))
    );
}

#[test]
fn param_without_name() {
    let mut req = RequestContext::new("/x?=value".to_string());
    let params = req.params();
    assert_eq!(params.len(), 1);
    assert_eq!(param_texts(&req, &params[0]), (None, Some("value".to_string())));
}

#[test]
fn param_without_value() {
    let mut req = RequestContext::new("/x?flag".to_string());
    let params = req.params();
    assert_eq!(params.len(), 1);
    assert_eq!(param_texts(&req, &params[0]), (Some("flag".to_string()), None));
}

#[test]
fn empty_url_parses_to_nothing() {
    let mut req = RequestContext::new(String::new());
    let path = req.path();
    assert_eq!(req.text(path), "");
    assert!(req.parts().is_empty());
    assert!(req.params().is_empty());
    let mut info = UrlInfo::new(String::new());
    info.lazy_parse();
    assert!(!info.is_lazy_parsed());
}

#[test]
fn parsing_twice_gives_the_same_parts() {
    let mut info = UrlInfo::new("/a/b?x=1".to_string());
    assert!(!info.is_lazy_parsed());
    info.parse_if_needed();
    assert!(info.is_lazy_parsed());
    let mut req = RequestContext::new("/a/b?x=1?y".to_string());
    let first = (req.path(), req.parts(), req.params());
    let second = (req.path(), req.parts(), req.params());
    assert_eq!(first.0, second.0);
    assert_eq!(first.1, second.1);
    assert_eq!(first.2.len(), second.2.len());
    for (a, b) in first.2.iter().zip(second.2.iter()) {
        assert_eq!(param_texts(&req, a), param_texts(&req, b));
    }
}

#[test]
fn only_the_first_equals_sign_separates_name_and_value() {
    let mut req = RequestContext::new("/x?a=b=c?=d=e".to_string());
    let params = req.params();
    assert_eq!(params.len(), 2);
    assert_eq!(
        param_texts(&req, &params[0]),
        (Some("a".to_string()), Some("b=c".to_string()))
    );
    assert_eq!(param_texts(&req, &params[1]), (None, Some("d=e".to_string())));
}

#[test]
fn url_without_slash_is_one_segment_and_the_path() {
    let mut req = RequestContext::new("index".to_string());
    let path = req.path();
    assert_eq!(req.text(path), "index");
    let parts = req.parts();
    assert_eq!(texts(&req, &parts), vec!["index"]);
    assert!(req.params().is_empty());
}

#[test]
fn segment_ending_at_question_mark_has_empty_path_piece() {
    let mut req = RequestContext::new("/dir/?k=v&w".to_string());
    let path = req.path();
    assert_eq!(req.text(path), "/dir/");
    let params = req.params();
    assert_eq!(params.len(), 1);
    assert_eq!(
        param_texts(&req, &params[0]),
        (Some("k".to_string()), Some("v&w".to_string()))
    );
}

#[test]
fn question_mark_in_earlier_segment_is_part_of_the_path() {
    let mut req = RequestContext::new("/a?b/c".to_string());
    let path = req.path();
    assert_eq!(req.text(path), "/a?b/c");
    assert!(req.params().is_empty());
}

#[test]
fn trailing_question_mark_gives_an_empty_name() {
    let mut req = RequestContext::new("/x?".to_string());
    let params = req.params();
    assert_eq!(params.len(), 1);
    assert_eq!(param_texts(&req, &params[0]), (Some(String::new()), None));
}

#[test]
fn non_ascii_url_uses_character_ranges() {
    let mut req = RequestContext::new("/über/straße?ä=ö".to_string());
    let path = req.path();
    assert_eq!(req.text(path), "/über/straße");
    let params = req.params();
    assert_eq!(
        param_texts(&req, &params[0]),
        (Some("ä".to_string()), Some("ö".to_string()))
    );
    assert_eq!(req.original_url(), "/über/straße?ä=ö");
}
