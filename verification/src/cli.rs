//! The commands of the calculator and the reading of what a user types.

use crate::decimal::Decimal;
use crate::numeral::numeral_micros;
use crate::text::{same_text, split, split_fields};
use vstd::prelude::*;
use vstd::string::StringExecFns;

verus! {

/// What is to be done with the settings.
#[derive(Clone, Copy, Debug, PartialEq, Eq, Structural)]
pub enum ConfigSubcommand {
    /// Show the settings in use.
    Show,
    /// Go back to the default settings.
    Reset,
    /// Tell where the settings can be edited.
    Edit,
}

/// What the calculator is asked to do.
#[derive(Clone, Debug)]
pub enum Commands {
    /// Analyse a holding at the current price.
    Calculate {
        code: String,
        quantity: Decimal,
        avg_price: Decimal,
        target_profit: Decimal,
        max_loss: Decimal,
        save: bool,
    },
    /// Watch saved holdings, one quote every `interval` seconds.
    Monitor { code: String, interval: u64, retry: u32 },
    /// List the saved holdings.
    List { detailed: bool },
    /// Remove saved holdings.
    Remove { code: String },
    /// Ask for a holding step by step.
    Interactive,
    /// Manage the settings.
    Config { subcommand: ConfigSubcommand },
    /// Show the full quote of a stock.
    Test { code: String },
}

/// A command line, read.
#[derive(Clone, Debug)]
pub struct Cli {
    pub command: Commands,
}

/// `s` in lower case, as `str::to_lowercase` gives it.
pub uninterp spec fn lowercase(s: Seq<char>) -> Seq<char>;

/// `str::to_lowercase` of std: the text with each character replaced by its
/// lower-case form according to Unicode. Nothing is assumed but that the
/// result depends on the text alone.
pub assume_specification[ str::to_lowercase ](s: &str) -> (lower: String)
    ensures
        lower@ == lowercase(s@),
;

/// The answer that a text in lower case gives: yes, no, or neither.
pub open spec fn answer_in(lower: Seq<char>) -> Option<bool> {
    if lower == "y"@ || lower == "yes"@ || lower == "是"@ {
        Some(true)
    } else if lower == "n"@ || lower == "no"@ || lower == "否"@ {
        Some(false)
    } else {
        None
    }
}

/// The positive number that a text writes, if it writes one.
pub open spec fn positive_number_in(input: Seq<char>) -> Option<int> {
    match numeral_micros(input) {
        Some(v) => if v > 0 {
            Some(v)
        } else {
            None
        },
        None => None,
    }
}

/// The stock codes in a list that separates them by commas: the parts
/// between the commas that are not empty, in order.
pub open spec fn stock_codes_in(list: Seq<char>) -> Seq<Seq<char>> {
    split(list, ',').filter(|part: Seq<char>| part.len() > 0)
}

/// The step-by-step way of asking for a holding.
pub struct InteractiveMode;

impl InteractiveMode {
    /// Reads a number that the user was asked for: it has to be positive.
    /// `None` asks the caller to ask again.
    pub fn read_number(input: &str) -> (r: Option<Decimal>)
        ensures
            r is Some <==> positive_number_in(input@) is Some,
            r is Some ==> r->0@ == positive_number_in(input@)->0,
    {
        match Decimal::parse(input) {
            Some(number) => if number.micros > 0 {
                Some(number)
            } else {
                None
            },
            None => None,
        }
    }

    /// Reads the answer to a yes-or-no question from a text in lower case.
    /// `None` asks the caller to ask again.
    pub fn answer_of(lower: &str) -> (r: Option<bool>)
        ensures
            r == answer_in(lower@),
    {
        if same_text(lower, "y") || same_text(lower, "yes") || same_text(lower, "是") {
            Some(true)
        } else if same_text(lower, "n") || same_text(lower, "no") || same_text(lower, "否") {
            Some(false)
        } else {
            None
        }
    }

    /// Reads the answer to a yes-or-no question, in any case of letters.
    /// `None` asks the caller to ask again.
    pub fn read_yes_no(input: &str) -> (r: Option<bool>)
        ensures
            r == answer_in(lowercase(input@)),
    {
        let lower = input.to_lowercase();
        Self::answer_of(lower.as_str())
    }
}

/// The stock codes in a list that separates them by commas.
pub fn parse_stock_codes(list: &str) -> (codes: Vec<String>)
    ensures
        codes@.len() == stock_codes_in(list@).len(),
        forall|i: int| 0 <= i < codes@.len() ==> (#[trigger] codes@[i])@ == stock_codes_in(list@)[i],
{
    let parts = split_fields(list, ',');
    let ghost all = split(list@, ',');
    let ghost kept = |part: Seq<char>| part.len() > 0;
    let mut codes: Vec<String> = Vec::new();
    let mut i: usize = 0;
    proof {
        reveal(Seq::filter);
    }
    while i < parts.len()
        invariant
            i <= parts.len(),
            all == split(list@, ','),
            kept == |part: Seq<char>| part.len() > 0,
            parts@.len() == all.len(),
            forall|k: int| 0 <= k < parts@.len() ==> (#[trigger] parts@[k])@ == all[k],
            codes@.len() == all.take(i as int).filter(kept).len(),
            forall|k: int|
                0 <= k < codes@.len() ==> (#[trigger] codes@[k])@ == all.take(i as int).filter(
                    kept,
                )[k],
        decreases parts.len() - i,
    {
        proof {
            reveal(Seq::filter);
            assert(all.take(i + 1).drop_last() =~= all.take(i as int));
        }
        let part = parts[i];
        if !part.is_empty() {
            codes.push(String::from_str(part));
        }
        i += 1;
    }
    assert(all.take(i as int) =~= all);
    codes
}

} // verus!
