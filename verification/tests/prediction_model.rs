use big_iron::prediction_model::{creation_outcome, parse_trade_signal, run_outcome, script_outcome, TradeSignal};

#[test]
fn signal_words_are_recognised() {
    assert_eq!(parse_trade_signal("buy"), Some(TradeSignal::Buy));
    assert_eq!(parse_trade_signal("sell"), Some(TradeSignal::Sell));
    assert_eq!(parse_trade_signal("none"), Some(TradeSignal::Hold));
}

#[test]
fn other_text_is_not_a_signal() {
    assert_eq!(parse_trade_signal("hold"), None);
    assert_eq!(parse_trade_signal("buy\n"), None);
    assert_eq!(parse_trade_signal("BUY"), None);
    assert_eq!(parse_trade_signal(""), None);
}

#[test]
fn successful_script_gives_its_output() {
    assert_eq!(script_outcome(true, "buy".to_string(), "exit status: 0", "warn"), Ok("buy".to_string()));
}

#[test]
fn failed_script_gives_status_and_stderr() {
    assert_eq!(
        script_outcome(false, "partial".to_string(), "exit status: 1", "boom"),
        Err("Status: exit status: 1 - error: boom".to_string())
    );
}

#[test]
fn creation_keeps_only_success_or_error() {
    assert_eq!(creation_outcome(Ok("anything".to_string())), Ok(()));
    assert_eq!(creation_outcome(Err("no R".to_string())), Err("no R".to_string()));
}

#[test]
fn run_maps_output_to_signal() {
    assert_eq!(run_outcome(Ok("sell".to_string())), Ok(TradeSignal::Sell));
    assert_eq!(run_outcome(Ok("none".to_string())), Ok(TradeSignal::Hold));
    assert_eq!(run_outcome(Ok("maybe".to_string())), Ok(TradeSignal::Hold));
    assert_eq!(run_outcome(Err("Status: x - error: y".to_string())), Err("Status: x - error: y".to_string()));
}
