//! The records that the calculator works on, each with its mathematical view.

use crate::decimal::Decimal;
use crate::text::same_text;
use vstd::prelude::*;

verus! {

/// A point in time: seconds since 1970-01-01 00:00:00 UTC, and the
/// nanoseconds into that second.
#[derive(Clone, Copy, Debug, PartialEq, Eq, Structural)]
pub struct Timestamp {
    pub seconds: i64,
    pub nanos: u32,
}

/// A holding: how much of a stock is held, what it cost, and the profit and
/// loss at which the holder wants to act.
#[derive(Clone, Debug)]
pub struct StockData {
    pub code: String,
    pub quantity: Decimal,
    pub avg_price: Decimal,
    pub target_profit: Decimal,
    pub max_loss: Decimal,
    pub last_updated: Timestamp,
}

/// A holding as plain values; the numbers are counts of millionths.
pub struct StockDataView {
    pub code: Seq<char>,
    pub quantity: int,
    pub avg_price: int,
    pub target_profit: int,
    pub max_loss: int,
    pub last_updated: Timestamp,
}

impl View for StockData {
    type V = StockDataView;

    open spec fn view(&self) -> StockDataView {
        StockDataView {
            code: self.code@,
            quantity: self.quantity@,
            avg_price: self.avg_price@,
            target_profit: self.target_profit@,
            max_loss: self.max_loss@,
            last_updated: self.last_updated,
        }
    }
}

impl StockData {
    /// A copy of this holding.
    pub fn duplicate(&self) -> (copy: StockData)
        ensures
            copy@ == self@,
    {
        StockData {
            code: self.code.clone(),
            quantity: self.quantity,
            avg_price: self.avg_price,
            target_profit: self.target_profit,
            max_loss: self.max_loss,
            last_updated: self.last_updated,
        }
    }
}

/// How large the invested amount is.
#[derive(Clone, Copy, Debug, PartialEq, Eq, Structural)]
pub enum InvestmentScale {
    Small,
    Medium,
    Large,
}

/// Where the current price stands relative to the holder's targets.
#[derive(Clone, Copy, Debug, PartialEq, Eq, Structural)]
pub enum StockStatus {
    Profitable,
    Loss,
    AtTarget,
    AtStopLoss,
    NearTarget,
    NearStopLoss,
}

/// What follows from a holding and a current price.
#[derive(Clone, Debug)]
pub struct StockAnalysis {
    pub code: String,
    pub current_price: Decimal,
    pub quantity: Decimal,
    pub avg_price: Decimal,
    pub target_profit: Decimal,
    pub max_loss: Decimal,
    pub target_price: Decimal,
    pub stop_loss_price: Decimal,
    pub current_profit: Decimal,
    pub profit_ratio: Decimal,
    pub distance_to_target: Decimal,
    pub distance_to_stop_loss: Decimal,
    pub risk_reward_ratio: Decimal,
    pub investment_amount: Decimal,
    pub investment_scale: InvestmentScale,
    pub status: StockStatus,
    pub last_updated: Timestamp,
}

/// An analysis as plain values; the numbers are counts of millionths.
pub struct StockAnalysisView {
    pub code: Seq<char>,
    pub current_price: int,
    pub quantity: int,
    pub avg_price: int,
    pub target_profit: int,
    pub max_loss: int,
    pub target_price: int,
    pub stop_loss_price: int,
    pub current_profit: int,
    pub profit_ratio: int,
    pub distance_to_target: int,
    pub distance_to_stop_loss: int,
    pub risk_reward_ratio: int,
    pub investment_amount: int,
    pub investment_scale: InvestmentScale,
    pub status: StockStatus,
    pub last_updated: Timestamp,
}

impl View for StockAnalysis {
    type V = StockAnalysisView;

    open spec fn view(&self) -> StockAnalysisView {
        StockAnalysisView {
            code: self.code@,
            current_price: self.current_price@,
            quantity: self.quantity@,
            avg_price: self.avg_price@,
            target_profit: self.target_profit@,
            max_loss: self.max_loss@,
            target_price: self.target_price@,
            stop_loss_price: self.stop_loss_price@,
            current_profit: self.current_profit@,
            profit_ratio: self.profit_ratio@,
            distance_to_target: self.distance_to_target@,
            distance_to_stop_loss: self.distance_to_stop_loss@,
            risk_reward_ratio: self.risk_reward_ratio@,
            investment_amount: self.investment_amount@,
            investment_scale: self.investment_scale,
            status: self.status,
            last_updated: self.last_updated,
        }
    }
}

/// A full quote as the vendor reports it.
#[derive(Clone, Debug)]
pub struct StockInfo {
    pub name: String,
    pub code: String,
    pub current_price: Decimal,
    pub yesterday_close: Decimal,
    pub open_price: Decimal,
    pub volume: u64,
    pub turnover: Decimal,
    pub high_price: Decimal,
    pub low_price: Decimal,
    pub change_amount: Decimal,
    pub change_percent: Decimal,
}

/// A full quote as plain values; the decimal numbers are counts of
/// millionths.
pub struct StockInfoView {
    pub name: Seq<char>,
    pub code: Seq<char>,
    pub current_price: int,
    pub yesterday_close: int,
    pub open_price: int,
    pub volume: int,
    pub turnover: int,
    pub high_price: int,
    pub low_price: int,
    pub change_amount: int,
    pub change_percent: int,
}

impl View for StockInfo {
    type V = StockInfoView;

    open spec fn view(&self) -> StockInfoView {
        StockInfoView {
            name: self.name@,
            code: self.code@,
            current_price: self.current_price@,
            yesterday_close: self.yesterday_close@,
            open_price: self.open_price@,
            volume: self.volume as int,
            turnover: self.turnover@,
            high_price: self.high_price@,
            low_price: self.low_price@,
            change_amount: self.change_amount@,
            change_percent: self.change_percent@,
        }
    }
}

/// Whether the holding at index `i` of `entries` is the one for `code`.
pub open spec fn holds_at(entries: Seq<StockDataView>, code: Seq<char>, i: int) -> bool {
    0 <= i < entries.len() && entries[i].code == code
}

/// Whether `entries` has a holding for `code`.
pub open spec fn has_code(entries: Seq<StockDataView>, code: Seq<char>) -> bool {
    exists|i: int| holds_at(entries, code, i)
}

/// Whether no code occurs twice in `entries`.
pub open spec fn distinct_codes(entries: Seq<StockDataView>) -> bool {
    forall|i: int, j: int|
        0 <= i < j < entries.len() ==> (#[trigger] entries[i]).code != (#[trigger] entries[j]).code
}

/// The saved holdings, at most one for each stock code. Its view lists them
/// in the order in which their codes were first added.
#[derive(Debug)]
pub struct StockDatabase {
    stocks: Vec<StockData>,
}

impl View for StockDatabase {
    type V = Seq<StockDataView>;

    closed spec fn view(&self) -> Seq<StockDataView> {
        self.stocks@.map_values(|s: StockData| s@)
    }
}

impl StockDatabase {
    #[verifier::type_invariant]
    spec fn well_formed(self) -> bool {
        distinct_codes(self@)
    }

    /// A database without holdings.
    pub fn new() -> (db: StockDatabase)
        ensures
            db@ == Seq::<StockDataView>::empty(),
    {
        StockDatabase { stocks: Vec::new() }
    }

    /// The index of the holding for `code`, if there is one.
    fn find(&self, code: &str) -> (r: Option<usize>)
        ensures
            match r {
                Some(i) => holds_at(self@, code@, i as int) && i < self.stocks.len(),
                None => !has_code(self@, code@),
            },
    {
        let mut i: usize = 0;
        while i < self.stocks.len()
            invariant
                i <= self.stocks.len(),
                forall|j: int| 0 <= j < i ==> !holds_at(self@, code@, j),
            decreases self.stocks.len() - i,
        {
            if same_text(self.stocks[i].code.as_str(), code) {
                return Some(i);
            }
            i += 1;
        }
        None
    }

    /// Saves `stock`: it takes the place of the holding with the same code,
    /// or is added at the end if there is none.
    pub fn add_stock(&mut self, stock: StockData)
        ensures
            distinct_codes(final(self)@),
            forall|i: int|
                holds_at(old(self)@, stock.code@, i) ==> final(self)@ == old(self)@.update(
                    i,
                    stock@,
                ),
            !has_code(old(self)@, stock.code@) ==> final(self)@ == old(self)@.push(stock@),
    {
        proof {
            use_type_invariant(&*self);
        }
        let found = self.find(stock.code.as_str());
        let ghost code = stock.code@;
        let ghost added = stock@;
        let mut stocks: Vec<StockData> = Vec::new();
        core::mem::swap(&mut self.stocks, &mut stocks);
        match found {
            Some(i) => {
                stocks.set(i, stock);
                assert(stocks@.map_values(|s: StockData| s@) =~= old(self)@.update(
                    i as int,
                    added,
                ));
            },
            None => {
                stocks.push(stock);
                assert(stocks@.map_values(|s: StockData| s@) =~= old(self)@.push(added));
                assert forall|a: int| 0 <= a < old(self)@.len() implies (#[trigger] old(
                    self,
                )@.push(added)[a]).code != code by {
                    assert(!holds_at(old(self)@, code, a));
                }
            },
        }
        core::mem::swap(&mut self.stocks, &mut stocks);
    }

    /// Takes out the holding for `code` and hands it back, if there is one.
    pub fn remove_stock(&mut self, code: &str) -> (r: Option<StockData>)
        ensures
            distinct_codes(final(self)@),
            match r {
                Some(stock) => exists|i: int|
                    {
                        &&& #[trigger] holds_at(old(self)@, code@, i)
                        &&& stock@ == old(self)@[i]
                        &&& final(self)@ == old(self)@.remove(i)
                    },
                None => !has_code(old(self)@, code@) && final(self)@ == old(self)@,
            },
    {
        proof {
            use_type_invariant(&*self);
        }
        match self.find(code) {
            Some(i) => {
                let mut stocks: Vec<StockData> = Vec::new();
                core::mem::swap(&mut self.stocks, &mut stocks);
                let stock = stocks.remove(i);
                assert(stocks@.map_values(|s: StockData| s@) =~= old(self)@.remove(i as int));
                core::mem::swap(&mut self.stocks, &mut stocks);
                Some(stock)
            },
            None => None,
        }
    }

    /// The holding for `code`, if there is one.
    pub fn get_stock(&self, code: &str) -> (r: Option<&StockData>)
        ensures
            match r {
                Some(stock) => exists|i: int| #[trigger]
                    holds_at(self@, code@, i) && stock@ == self@[i],
                None => !has_code(self@, code@),
            },
    {
        match self.find(code) {
            Some(i) => Some(&self.stocks[i]),
            None => None,
        }
    }

    /// All holdings, no code twice.
    pub fn list_stocks(&self) -> (list: Vec<&StockData>)
        ensures
            list@.len() == self@.len(),
            forall|i: int| 0 <= i < list@.len() ==> (#[trigger] list@[i])@ == self@[i],
            distinct_codes(self@),
    {
        proof {
            use_type_invariant(self);
        }
        let mut list: Vec<&StockData> = Vec::new();
        let mut i: usize = 0;
        while i < self.stocks.len()
            invariant
                i <= self.stocks.len(),
                list@.len() == i,
                forall|k: int| 0 <= k < i ==> (#[trigger] list@[k])@ == self@[k],
            decreases self.stocks.len() - i,
        {
            list.push(&self.stocks[i]);
            i += 1;
        }
        list
    }

    /// The number of holdings.
    pub fn len(&self) -> (n: usize)
        ensures
            n == self@.len(),
    {
        self.stocks.len()
    }
}

impl Default for StockDatabase {
    /// A database without holdings.
    fn default() -> (db: StockDatabase)
        ensures
            db@ == Seq::<StockDataView>::empty(),
    {
        StockDatabase::new()
    }
}

} // verus!
