use cdk_mintd::invoice::Invoice;
use cdk_mintd::pending::{
    check_pending_quotes, AwaitingStatus, PendingCheck, PendingQuote, PendingStep, StatusStep,
};
use cdk_mintd::quote_state::{MintQuoteState, StateUpdate};

const REQUEST: &str = "lnbc2500u1pvjluezsp5zyg3zyg3zyg3zyg3zyg3zyg3zyg3zyg3zyg3zyg3zyg3zyg3zygspp5qqqsyqcyq5rqwzqfqqqsyqcyq5rqwzqfqqqsyqcyq5rqwzqfqypqdq5xysxxatsyp3k7enxv4jsxqzpu9qrsgquk0rl77nj30yxdy8j9vdx85fkpmdla2087ne0xh8nhedh8w27kyke0lp53ut353s06fv3qfegext0eh0ymjpf39tuven09sam30g4vgpfna3rh";
const PAYMENT_HASH: &str = "0001020304050607080900010203040506070809000102030405060708090102";

fn quote(id: &str, request: &str, state: MintQuoteState) -> PendingQuote {
    PendingQuote { id: id.to_string(), request: request.to_string(), state }
}

fn asked(step: PendingStep) -> (String, AwaitingStatus) {
    match step {
        PendingStep::CheckStatus { payment_hash, awaiting } => (payment_hash, awaiting),
        other => panic!("no status asked for: {:?}", other),
    }
}

#[derive(Debug, PartialEq)]
enum End {
    Done,
    Unreadable(String),
    StatusFailed(&'static str),
    UpdateFailed(&'static str),
    Unanswered,
}

type Answer = (Result<MintQuoteState, &'static str>, Result<(), &'static str>);

struct Run {
    asked: usize,
    ordered: Vec<StateUpdate>,
    made: usize,
    end: End,
}

fn run(quotes: Vec<PendingQuote>, answers: Vec<Answer>) -> Run {
    let mut run = Run { asked: 0, ordered: Vec::new(), made: 0, end: End::Unanswered };
    let mut answers = answers.into_iter();
    let mut check: PendingCheck = check_pending_quotes(quotes);
    loop {
        let awaiting = match check.next() {
            PendingStep::Done => {
                run.end = End::Done;
                return run;
            }
            PendingStep::Unreadable(reason) => {
                run.end = End::Unreadable(reason);
                return run;
            }
            PendingStep::CheckStatus { awaiting, .. } => awaiting,
        };
        run.asked += 1;
        let (status, outcome) = match answers.next() {
            Some(answer) => answer,
            None => return run,
        };
        check = match awaiting.reported(status) {
            StatusStep::Failed(error) => {
                run.end = End::StatusFailed(error);
                return run;
            }
            StatusStep::Confirmed(rest) => rest,
            StatusStep::Update { update, awaiting } => {
                run.ordered.push(update);
                match awaiting.updated(outcome) {
                    Ok(rest) => {
                        run.made += 1;
                        rest
                    }
                    Err(error) => {
                        run.end = End::UpdateFailed(error);
                        return run;
                    }
                }
            }
        };
    }
}

fn update(id: &str, state: MintQuoteState) -> StateUpdate {
    StateUpdate { quote_id: id.to_string(), state }
}

fn three_unpaid() -> Vec<PendingQuote> {
    vec![
        quote("a", REQUEST, MintQuoteState::Unpaid),
        quote("b", REQUEST, MintQuoteState::Unpaid),
        quote("c", REQUEST, MintQuoteState::Unpaid),
    ]
}

#[test]
fn no_pending_quote() {
    assert_eq!(check_pending_quotes(Vec::new()).next(), PendingStep::Done);
}

#[test]
fn node_is_asked_for_the_payment_hash() {
    let check = check_pending_quotes(vec![quote("a", REQUEST, MintQuoteState::Unpaid)]);
    let (payment_hash, awaiting) = asked(check.next());
    assert_eq!(payment_hash, PAYMENT_HASH);
    let StatusStep::Update { update: ordered, awaiting } =
        awaiting.reported::<()>(Ok(MintQuoteState::Paid))
    else {
        panic!("no update ordered");
    };
    assert_eq!(ordered, update("a", MintQuoteState::Paid));
    assert_eq!(awaiting.updated::<()>(Ok(())).unwrap().next(), PendingStep::Done);
}

#[test]
fn confirmed_state_is_left_alone() {
    let quotes = vec![
        quote("a", REQUEST, MintQuoteState::Unpaid),
        quote("b", REQUEST, MintQuoteState::Pending),
    ];
    let run = run(
        quotes,
        vec![
            (Ok(MintQuoteState::Unpaid), Err("locked")),
            (Ok(MintQuoteState::Pending), Err("locked")),
        ],
    );
    assert_eq!(run.ordered, Vec::new());
    assert_eq!(run.asked, 2);
    assert_eq!(run.end, End::Done);
}

#[test]
fn changed_states_are_updated_in_order() {
    let quotes = vec![
        quote("a", REQUEST, MintQuoteState::Unpaid),
        quote("b", REQUEST, MintQuoteState::Pending),
        quote("c", REQUEST, MintQuoteState::Pending),
    ];
    let run = run(
        quotes,
        vec![
            (Ok(MintQuoteState::Paid), Ok(())),
            (Ok(MintQuoteState::Pending), Ok(())),
            (Ok(MintQuoteState::Issued), Ok(())),
        ],
    );
    assert_eq!(
        run.ordered,
        vec![update("a", MintQuoteState::Paid), update("c", MintQuoteState::Issued)]
    );
    assert_eq!(run.made, 2);
    assert_eq!(run.end, End::Done);
}

#[test]
fn check_stops_at_an_unreadable_request() {
    let mut quotes = three_unpaid();
    quotes[1].request = String::new();
    let run = run(quotes, vec![(Ok(MintQuoteState::Paid), Ok(()))]);
    assert_eq!(run.asked, 1);
    assert_eq!(run.ordered, vec![update("a", MintQuoteState::Paid)]);
    assert_eq!(run.made, 1);
    assert_eq!(
        run.end,
        End::Unreadable("Invalid bech32: missing human-readable separator, \"1\"".to_string())
    );
}

#[test]
fn check_stops_at_a_status_that_is_not_given() {
    let run = run(
        three_unpaid(),
        vec![
            (Ok(MintQuoteState::Paid), Ok(())),
            (Err("node is down"), Ok(())),
            (Ok(MintQuoteState::Paid), Ok(())),
        ],
    );
    assert_eq!(run.asked, 2);
    assert_eq!(run.ordered, vec![update("a", MintQuoteState::Paid)]);
    assert_eq!(run.made, 1);
    assert_eq!(run.end, End::StatusFailed("node is down"));
}

#[test]
fn check_stops_at_an_update_that_is_not_made() {
    let run = run(
        three_unpaid(),
        vec![
            (Ok(MintQuoteState::Paid), Ok(())),
            (Ok(MintQuoteState::Paid), Err("locked")),
            (Ok(MintQuoteState::Paid), Ok(())),
        ],
    );
    assert_eq!(run.asked, 2);
    assert_eq!(
        run.ordered,
        vec![update("a", MintQuoteState::Paid), update("b", MintQuoteState::Paid)]
    );
    assert_eq!(run.made, 1);
    assert_eq!(run.end, End::UpdateFailed("locked"));
}

#[test]
fn check_waits_for_a_status() {
    let run = run(three_unpaid(), Vec::new());
    assert_eq!(run.asked, 1);
    assert_eq!(run.end, End::Unanswered);
}

#[test]
fn step_goes_by_what_was_read() {
    let check = check_pending_quotes(vec![quote("a", "r", MintQuoteState::Paid)]);
    let (payment_hash, awaiting) = asked(check.next_given(Ok(Invoice {
        text: "r".to_string(),
        amount_msat: None,
        payment_hash: "h".to_string(),
        canonical: "r".to_string(),
    })));
    assert_eq!(payment_hash, "h");
    assert!(matches!(
        awaiting.reported::<()>(Ok(MintQuoteState::Paid)),
        StatusStep::Confirmed(_)
    ));
    let check = check_pending_quotes(vec![quote("a", "r", MintQuoteState::Paid)]);
    assert_eq!(
        check.next_given(Err("why".to_string())),
        PendingStep::Unreadable("why".to_string())
    );
}
