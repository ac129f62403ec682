//! The trading-signal model: what its scripts' outcomes mean.
use vstd::prelude::*;

verus! {

/// The signal that the prediction model hands back after a run.
#[derive(Debug, PartialEq, Eq, Structural, Clone, Copy)]
pub enum TradeSignal {
    Hold,
    Buy,
    Sell,
}

/// The signal that the model's output names, if it names one: exactly
/// `buy`, `sell` or `none`.
pub open spec fn named_signal(text: Seq<char>) -> Option<TradeSignal> {
    if text == "buy"@ {
        Some(TradeSignal::Buy)
    } else if text == "sell"@ {
        Some(TradeSignal::Sell)
    } else if text == "none"@ {
        Some(TradeSignal::Hold)
    } else {
        None
    }
}

/// The signal a run yields from the model's output: the one it names, and
/// `Hold` for any output that names none.
pub open spec fn signal_of_output(text: Seq<char>) -> TradeSignal {
    match named_signal(text) {
        Some(s) => s,
        None => TradeSignal::Hold,
    }
}

/// The error text for a script that failed with `status`, having written
/// `stderr`.
pub open spec fn script_error_text(status: Seq<char>, stderr: Seq<char>) -> Seq<char> {
    "Status: "@ + status + " - error: "@ + stderr
}

fn string_of(s: &str) -> (res: String)
    ensures
        res@ == s@,
{
    s.to_owned()
}

/// Recognises the model's output: `buy`, `sell` and `none` (the latter as
/// `Hold`); any other text, surrounding whitespace included, is not a signal.
pub fn parse_trade_signal(signal: &str) -> (res: Option<TradeSignal>)
    ensures
        res == named_signal(signal@),
        signal@ == "buy"@ <==> res == Some(TradeSignal::Buy),
        signal@ == "sell"@ <==> res == Some(TradeSignal::Sell),
        signal@ == "none"@ <==> res == Some(TradeSignal::Hold),
{
    proof {
        lemma_named_signal(signal@);
    }
    let text = string_of(signal);
    let buy = string_of("buy");
    let sell = string_of("sell");
    let none = string_of("none");
    if text == buy {
        Some(TradeSignal::Buy)
    } else if text == sell {
        Some(TradeSignal::Sell)
    } else if text == none {
        Some(TradeSignal::Hold)
    } else {
        None
    }
}

/// The outcome of a model script: its standard output when it succeeded;
/// otherwise an error made of its exit status and its standard error.
pub fn script_outcome(success: bool, stdout: String, status: &str, stderr: &str) -> (res: Result<
    String,
    String,
>)
    ensures
        res is Ok <==> success,
        res matches Ok(out) ==> out@ == stdout@,
        res matches Err(e) ==> e@ == script_error_text(status@, stderr@),
        res matches Err(e) ==> e@ == "Status: "@ + status@ + " - error: "@ + stderr@,
{
    if success {
        Ok(stdout)
    } else {
        let mut error = string_of("Status: ");
        error.append(status);
        error.append(" - error: ");
        error.append(stderr);
        Err(error)
    }
}

/// The outcome of creating a model: done when the creation script ran,
/// otherwise that script's error.
pub fn creation_outcome(script: Result<String, String>) -> (res: Result<(), String>)
    ensures
        script is Ok <==> res is Ok,
        script matches Err(e) ==> (res matches Err(f) && f@ == e@),
{
    match script {
        Ok(_) => Ok(()),
        Err(e) => Err(e),
    }
}

/// The outcome of running the model: the signal its output names (`Hold`
/// for output that names none), or the run script's error.
pub fn run_outcome(script: Result<String, String>) -> (res: Result<TradeSignal, String>)
    ensures
        script matches Ok(out) ==> res == Ok::<TradeSignal, String>(signal_of_output(out@)),
        script matches Ok(out) ==> (named_signal(out@) matches Some(s) ==> res == Ok::<
            TradeSignal,
            String,
        >(s)),
        script matches Ok(out) ==> (named_signal(out@) is None ==> res == Ok::<TradeSignal, String>(
            TradeSignal::Hold,
        )),
        script matches Ok(out) ==> (out@ == "buy"@ ==> res == Ok::<TradeSignal, String>(
            TradeSignal::Buy,
        )),
        script matches Ok(out) ==> (out@ == "sell"@ ==> res == Ok::<TradeSignal, String>(
            TradeSignal::Sell,
        )),
        script matches Ok(out) ==> (out@ == "none"@ ==> res == Ok::<TradeSignal, String>(
            TradeSignal::Hold,
        )),
        script matches Err(e) ==> (res matches Err(f) && f@ == e@),
{
    proof {
        if script is Ok {
            lemma_signal_of_output(script->Ok_0@);
        }
    }
    match script {
        Ok(out) => match parse_trade_signal(out.as_str()) {
            Some(signal) => Ok(signal),
            None => Ok(TradeSignal::Hold),
        },
        Err(e) => Err(e),
    }
}

/// Exactly the words `buy`, `sell` and `none` name a signal: `buy` names
/// `Buy`, `sell` names `Sell`, `none` names `Hold`, and every other text names
/// none.
pub proof fn lemma_named_signal(text: Seq<char>)
    ensures
        text == "buy"@ <==> named_signal(text) == Some(TradeSignal::Buy),
        text == "sell"@ <==> named_signal(text) == Some(TradeSignal::Sell),
        text == "none"@ <==> named_signal(text) == Some(TradeSignal::Hold),
        named_signal(text) is None <==> (text != "buy"@ && text != "sell"@ && text != "none"@),
{
    reveal_strlit("buy");
    reveal_strlit("sell");
    reveal_strlit("none");
    assert("buy"@.len() == 3);
    assert("sell"@.len() == 4);
    assert("none"@.len() == 4);
    assert("sell"@[0] == 's');
    assert("none"@[0] == 'n');
    assert("buy"@ != "sell"@);
    assert("buy"@ != "none"@);
    assert("sell"@ != "none"@);
}

/// The signal of a successful run is the one its output names, and `Hold`
/// exactly when the output names none; `buy` gives `Buy`, `sell` gives
/// `Sell`, `none` gives `Hold`.
pub proof fn lemma_signal_of_output(text: Seq<char>)
    ensures
        named_signal(text) matches Some(s) ==> signal_of_output(text) == s,
        named_signal(text) is None ==> signal_of_output(text) == TradeSignal::Hold,
        text == "buy"@ ==> signal_of_output(text) == TradeSignal::Buy,
        text == "sell"@ ==> signal_of_output(text) == TradeSignal::Sell,
        text == "none"@ ==> signal_of_output(text) == TradeSignal::Hold,
{
    lemma_named_signal(text);
}

} // verus!
