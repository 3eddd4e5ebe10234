use haruhi::proc::{
    ContextBundle, ContractViolation, OkResultContext, ErrResultContext, Process, RequestContext,
    ResultContext, ResultContextBundle, Update,
};

#[derive(Debug, PartialEq)]
struct Total(i64);

#[derive(Debug, PartialEq)]
struct Failure(String);

enum Step {
    Add(i64),
    Fail(&'static str),
}

impl Update for Step {}
impl OkResultContext for Total {}
impl ErrResultContext for Failure {}

impl ResultContext<Total, Failure, Step> for Total {
    fn apply_spec(self, update: Step) -> Result<Total, Failure> {
        self.apply(update)
    }

    fn apply(self, update: Step) -> Result<Total, Failure> {
        match update {
            Step::Add(n) => Ok(Total(self.0 + n)),
            Step::Fail(why) => Err(Failure(why.to_string())),
        }
    }
}

impl ResultContext<Total, Failure, Step> for Failure {
    fn apply_spec(self, update: Step) -> Result<Total, Failure> {
        self.apply(update)
    }

    fn apply(self, update: Step) -> Result<Total, Failure> {
        match update {
            Step::Add(n) => Ok(Total(n)),
            Step::Fail(why) => Err(Failure(format!("{}; {}", self.0, why))),
        }
    }
}

struct AddStep(i64);

impl Process for AddStep {
    type RS = Total;
    type Result = Step;

    fn exec(self, _context: &ContextBundle<Total>) -> Step {
        Step::Add(self.0)
    }
}

struct FailStep(&'static str);

impl Process for FailStep {
    type RS = Total;
    type Result = Step;

    fn exec(self, _context: &ContextBundle<Total>) -> Step {
        Step::Fail(self.0)
    }
}

struct Recover(i64);

impl Process for Recover {
    type RS = Failure;
    type Result = Step;

    fn exec(self, _context: &ContextBundle<Failure>) -> Step {
        Step::Add(self.0)
    }
}

struct StillBroken;

impl Process for StillBroken {
    type RS = Failure;
    type Result = Step;

    fn exec(self, _context: &ContextBundle<Failure>) -> Step {
        Step::Fail("again")
    }
}

struct Panics;

impl Process for Panics {
    type RS = Failure;
    type Result = Step;

    fn exec(self, _context: &ContextBundle<Failure>) -> Step {
        panic!("the fixer must not run on a healthy bundle")
    }
}

type Bundle = ResultContextBundle<Total, Failure>;

fn healthy(n: i64, url: &str) -> Bundle {
    ResultContextBundle::Healthy { result: Total(n), request: RequestContext::new(url.to_string()) }
}

fn broken(why: &str, url: &str) -> Bundle {
    ResultContextBundle::Broken {
        result: Failure(why.to_string()),
        request: RequestContext::new(url.to_string()),
    }
}

fn url_of(b: &Bundle) -> String {
    match b {
        ResultContextBundle::Healthy { request, .. } => request.original_url().to_string(),
        ResultContextBundle::Broken { request, .. } => request.original_url().to_string(),
    }
}

#[test]
fn update_advances_a_healthy_bundle() {
    let b = healthy(1, "/a").update(AddStep(2)).unwrap();
    assert!(b.is_ok());
    let cb = b.unwrap().unwrap();
    assert_eq!(cb.result, Total(3));
    assert_eq!(cb.request.original_url(), "/a");
}

#[test]
fn failed_update_keeps_the_request() {
    let b = healthy(1, "/keep?x=1").update(FailStep("boom")).unwrap();
    assert!(b.is_err());
    assert_eq!(url_of(&b), "/keep?x=1");
    assert_eq!(b.err().unwrap(), &Failure("boom".to_string()));
}

#[test]
fn continue_or_fix_passes_a_healthy_bundle_unchanged() {
    let b = healthy(7, "/ok").continue_or_fix(Panics);
    assert_eq!(url_of(&b), "/ok");
    assert_eq!(b.unwrap().unwrap().result, Total(7));
}

#[test]
fn continue_or_fix_repairs_a_broken_bundle() {
    let b = broken("bad", "/r").continue_or_fix(Recover(5));
    assert_eq!(url_of(&b), "/r");
    assert_eq!(b.unwrap().unwrap().result, Total(5));
}

#[test]
fn update_fixed_on_broken_equals_fix_then_update_when_recovered() {
    let one = broken("bad", "/u").update_fixed(AddStep(2), Recover(5)).unwrap();
    let two = broken("bad", "/u").fix(Recover(5)).unwrap().update(AddStep(2)).unwrap();
    assert_eq!(url_of(&one), url_of(&two));
    assert_eq!(one.unwrap().unwrap().result, two.unwrap().unwrap().result);
}

#[test]
fn update_fixed_on_broken_equals_fix_then_update_when_still_broken() {
    let one = broken("bad", "/u").update_fixed(AddStep(2), StillBroken);
    let two = broken("bad", "/u").fix(StillBroken).unwrap().update(AddStep(2));
    assert_eq!(one.err().unwrap(), ContractViolation::UpdateOnErr);
    assert_eq!(two.err().unwrap(), ContractViolation::UpdateOnErr);
}

#[test]
fn fix_that_fails_again_stays_broken() {
    let b = broken("bad", "/f").fix(StillBroken).unwrap();
    assert_eq!(b.err().unwrap(), &Failure("bad; again".to_string()));
}

#[test]
fn amend_applies_an_update_to_a_broken_bundle() {
    let b = broken("bad", "/m").amend(Step::Add(4)).unwrap();
    assert_eq!(b.unwrap().unwrap().result, Total(4));
}

#[test]
fn wrong_state_operations_report_misuse() {
    assert_eq!(healthy(1, "/").fix(Recover(1)).err().unwrap(), ContractViolation::FixOnOk);
    assert_eq!(healthy(1, "/").amend(Step::Add(1)).err().unwrap(), ContractViolation::FixOnOk);
    assert_eq!(healthy(1, "/").unwrap_err().err().unwrap(), ContractViolation::UnwrapErrOnOk);
    assert_eq!(healthy(1, "/").err().err().unwrap(), ContractViolation::UnwrapErrOnOk);
    assert_eq!(broken("x", "/").unwrap().err().unwrap(), ContractViolation::UnwrapOnErr);
    assert_eq!(broken("x", "/").update(AddStep(1)).err().unwrap(), ContractViolation::UpdateOnErr);
}

#[test]
fn unwrap_err_returns_the_failure_and_request() {
    let cb = broken("why", "/w").unwrap_err().unwrap();
    assert_eq!(cb.result, Failure("why".to_string()));
    assert_eq!(cb.request.original_url(), "/w");
}

#[test]
fn exec_over_applies_the_step() {
    let cb = ContextBundle { result: Total(10), request: RequestContext::new("/e".to_string()) };
    let b: Bundle = AddStep(-3).exec_over(cb);
    assert_eq!(b.unwrap().unwrap().result, Total(7));
}

#[test]
fn update_fixed_on_healthy_equals_update() {
    let one = healthy(3, "/h").update_fixed(AddStep(4), Panics).unwrap();
    let two = healthy(3, "/h").update(AddStep(4)).unwrap();
    assert_eq!(url_of(&one), url_of(&two));
    assert_eq!(one.unwrap().unwrap().result, two.unwrap().unwrap().result);
}

#[test]
fn continue_or_fix_on_broken_equals_fix() {
    let one = broken("bad", "/c").continue_or_fix(StillBroken);
    let two = broken("bad", "/c").fix(StillBroken).unwrap();
    assert_eq!(url_of(&one), url_of(&two));
    assert_eq!(one.err().unwrap(), two.err().unwrap());
}

#[test]
fn advance_applies_an_update_to_a_bundle() {
    let cb = ContextBundle { result: Total(2), request: RequestContext::new("/v".to_string()) };
    let b: Bundle = cb.advance(Step::Fail("no"));
    assert_eq!(url_of(&b), "/v");
    assert_eq!(b.err().unwrap(), &Failure("no".to_string()));
}
