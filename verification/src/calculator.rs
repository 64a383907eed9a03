//! Position analysis: from a holding and a current price to target and
//! stop-loss prices, profit figures and a classification.

use crate::decimal::{
    difference, divide_up, magnitude, percentage, percentage_outward, product, raised_quotient,
    ratio, ratio_up, sum, Decimal, SCALE,
};
use crate::numeral::fixed_text;
use crate::error::{StockCalcError, ValidationError};
use crate::models::{
    InvestmentScale, StockAnalysis, StockAnalysisView, StockData, StockDataView, StockStatus,
    Timestamp,
};
use crate::text::{all_alphanumeric, is_all_alphanumeric};
use vstd::prelude::*;
use vstd::string::StringExecFns;

verus! {

/// Amounts below this many millionths are small investments.
pub open spec fn small_limit() -> int {
    10_000 * SCALE
}

/// Amounts above this many millionths are large investments.
pub open spec fn medium_limit() -> int {
    100_000 * SCALE
}

/// The scale of an invested amount: small below 10,000, large above 100,000,
/// medium in between, both bounds included.
pub open spec fn scale_of(amount: int) -> InvestmentScale {
    if amount < small_limit() {
        InvestmentScale::Small
    } else if amount <= medium_limit() {
        InvestmentScale::Medium
    } else {
        InvestmentScale::Large
    }
}

/// Whether `price` is at least 95 hundredths of `target`.
pub open spec fn is_near_target(price: int, target: int) -> bool {
    price * 20 >= target * 19
}

/// Whether `price` is at most 105 hundredths of `stop_loss`.
pub open spec fn is_near_stop_loss(price: int, stop_loss: int) -> bool {
    price * 20 <= stop_loss * 21
}

/// The status that the rules give. The first rule that applies decides: at
/// target, at stop-loss, then near target or profitable for a positive
/// profit ratio, near stop-loss or loss otherwise. `near_target` and
/// `near_stop_loss` tell whether the price is within five hundredths of the
/// respective trigger price.
pub open spec fn status_by(
    price: int,
    target: int,
    stop_loss: int,
    profit_ratio: int,
    near_target: bool,
    near_stop_loss: bool,
) -> StockStatus {
    if price >= target {
        StockStatus::AtTarget
    } else if price <= stop_loss {
        StockStatus::AtStopLoss
    } else if profit_ratio > 0 {
        if near_target {
            StockStatus::NearTarget
        } else {
            StockStatus::Profitable
        }
    } else {
        if near_stop_loss {
            StockStatus::NearStopLoss
        } else {
            StockStatus::Loss
        }
    }
}

/// The status that follows from a price, the two trigger prices and the
/// profit ratio alone.
pub open spec fn status_of(price: int, target: int, stop_loss: int, profit_ratio: int) -> StockStatus {
    status_by(
        price,
        target,
        stop_loss,
        profit_ratio,
        is_near_target(price, target),
        is_near_stop_loss(price, stop_loss),
    )
}

/// The price at which the target profit is reached: the average price plus
/// the target profit for each unit held. The share for each unit is rounded
/// up, so that this is the lowest price that reaches the target profit.
pub open spec fn target_price_of(p: StockDataView) -> int {
    sum(p.avg_price, ratio_up(p.target_profit, p.quantity))
}

/// The price at which the maximum loss is reached: the average price less
/// the maximum loss for each unit held. The share for each unit is rounded
/// up, so that this is the highest price that reaches the maximum loss.
pub open spec fn stop_loss_price_of(p: StockDataView) -> int {
    difference(p.avg_price, ratio_up(p.max_loss, p.quantity))
}

/// The profit ratio, in percent, of a holding at a price: the gain over the
/// average price. It is rounded away from zero, so that it is zero only at
/// the average price and its sign is that of the exact ratio.
pub open spec fn profit_ratio_of(p: StockDataView, price: int) -> int {
    percentage_outward(difference(price, p.avg_price), p.avg_price)
}

/// Whether `price` is at least 95 hundredths of the exact target price of
/// `p`, the average price plus the unrounded share of the target profit.
pub open spec fn nears_target(p: StockDataView, price: int) -> bool {
    20 * price - 19 * p.avg_price >= raised_quotient(19 * p.target_profit * SCALE, p.quantity)
}

/// Whether `price` is at most 105 hundredths of the exact stop-loss price of
/// `p`, the average price less the unrounded share of the maximum loss.
pub open spec fn nears_stop_loss(p: StockDataView, price: int) -> bool {
    21 * p.avg_price - 20 * price >= raised_quotient(21 * p.max_loss * SCALE, p.quantity)
}

/// The status of holding `p` at the price `price`: what the rules give for
/// the price, the two trigger prices and the profit ratio, with nearness
/// judged by the exact trigger prices.
pub open spec fn status_at(p: StockDataView, price: int) -> StockStatus {
    status_by(
        price,
        target_price_of(p),
        stop_loss_price_of(p),
        profit_ratio_of(p, price),
        nears_target(p, price),
        nears_stop_loss(p, price),
    )
}

/// The analysis of holding `p` at the current price `price`, stamped `at`.
pub open spec fn analysis_of(p: StockDataView, price: int, at: Timestamp) -> StockAnalysisView {
    StockAnalysisView {
        code: p.code,
        current_price: price,
        quantity: p.quantity,
        avg_price: p.avg_price,
        target_profit: p.target_profit,
        max_loss: p.max_loss,
        target_price: target_price_of(p),
        stop_loss_price: stop_loss_price_of(p),
        current_profit: product(difference(price, p.avg_price), p.quantity),
        profit_ratio: profit_ratio_of(p, price),
        distance_to_target: percentage(difference(target_price_of(p), price), price),
        distance_to_stop_loss: percentage(difference(price, stop_loss_price_of(p)), price),
        risk_reward_ratio: ratio(p.target_profit, p.max_loss),
        investment_amount: product(p.quantity, p.avg_price),
        investment_scale: scale_of(product(p.quantity, p.avg_price)),
        status: status_at(p, price),
        last_updated: at,
    }
}

/// Whether the formulas of the analysis are defined: nothing is divided by
/// zero.
pub open spec fn analysable(p: StockDataView, price: int) -> bool {
    p.quantity != 0 && p.avg_price != 0 && p.max_loss != 0 && price != 0
}

/// The first rule that the numbers of a position break, if any: quantity,
/// average price, target profit and maximum loss must each be positive.
pub open spec fn first_number_violation(
    quantity: int,
    avg_price: int,
    target_profit: int,
    max_loss: int,
) -> Option<ValidationError> {
    if quantity <= 0 {
        Some(ValidationError::InvalidQuantity)
    } else if avg_price <= 0 {
        Some(ValidationError::InvalidPrice)
    } else if target_profit <= 0 {
        Some(ValidationError::InvalidTargetProfit)
    } else if max_loss <= 0 {
        Some(ValidationError::InvalidMaxLoss)
    } else {
        None
    }
}

/// The first rule that the inputs of a position break, if any: the code must
/// be alphanumeric, and then the numbers must each be positive.
pub open spec fn first_violation(
    code: Seq<char>,
    quantity: int,
    avg_price: int,
    target_profit: int,
    max_loss: int,
) -> Option<ValidationError> {
    if !all_alphanumeric(code) {
        Some(ValidationError::InvalidStockCode)
    } else {
        first_number_violation(quantity, avg_price, target_profit, max_loss)
    }
}

/// Whether `r` reports `violation`: success if there is none, and else the
/// validation error whose detail is the text of the violation.
pub open spec fn reports_violation(
    r: Result<(), StockCalcError>,
    violation: Option<ValidationError>,
) -> bool {
    match r {
        Ok(_) => violation is None,
        Err(StockCalcError::ValidationError(detail)) => violation is Some && detail@
            == violation->0.message_text(),
        Err(_) => false,
    }
}

/// The text of the advice that goes with a risk/reward ratio: excellent from
/// 3, good from 2, fair from 1.5, poor below.
pub open spec fn risk_level_text(risk_reward_ratio: int) -> Seq<char> {
    if risk_reward_ratio >= 3 * SCALE {
        "优秀"@
    } else if risk_reward_ratio >= 2 * SCALE {
        "良好"@
    } else if risk_reward_ratio >= 1_500_000 {
        "一般"@
    } else {
        "较差"@
    }
}

/// The name of an investment scale.
pub open spec fn scale_text(scale: InvestmentScale) -> Seq<char> {
    match scale {
        InvestmentScale::Small => "小额"@,
        InvestmentScale::Medium => "中等"@,
        InvestmentScale::Large => "大额"@,
    }
}

/// The sign shown for a status.
pub open spec fn status_emoji_text(status: StockStatus) -> Seq<char> {
    match status {
        StockStatus::Profitable => "📈"@,
        StockStatus::Loss => "📉"@,
        StockStatus::AtTarget => "🎉"@,
        StockStatus::AtStopLoss => "⚠️"@,
        StockStatus::NearTarget => "🎯"@,
        StockStatus::NearStopLoss => "🚨"@,
    }
}

/// The current time: the system clock, read with `SystemTime::now()` of
/// std, turned into a `DateTime<Utc>` by chrono's conversion from
/// `SystemTime` and taken apart with `DateTime::timestamp` and
/// `DateTime::timestamp_subsec_nanos`. Nothing is assumed of the value: the
/// clock may show any time, also one before 1970. chrono stops the program
/// only for a clock beyond the years that it can hold, some 262,000 years
/// from now.
#[verifier::external_body]
fn current_time() -> (now: Timestamp) {
    let now: chrono::DateTime<chrono::Utc> = std::time::SystemTime::now().into();
    Timestamp { seconds: now.timestamp(), nanos: now.timestamp_subsec_nanos() }
}

/// The analysis functions.
pub struct StockCalculator;

impl StockCalculator {
    /// Checks the inputs of a position and reports the first rule they break.
    pub fn validate_input(
        code: &str,
        quantity: Decimal,
        avg_price: Decimal,
        target_profit: Decimal,
        max_loss: Decimal,
    ) -> (r: Result<(), StockCalcError>)
        ensures
            reports_violation(
                r,
                first_violation(code@, quantity@, avg_price@, target_profit@, max_loss@),
            ),
    {
        if !is_all_alphanumeric(code) {
            return Err(Self::refusal(ValidationError::InvalidStockCode));
        }
        Self::validate_numbers(quantity, avg_price, target_profit, max_loss)
    }

    /// Checks the numbers of a position and reports the first rule they
    /// break.
    pub fn validate_numbers(
        quantity: Decimal,
        avg_price: Decimal,
        target_profit: Decimal,
        max_loss: Decimal,
    ) -> (r: Result<(), StockCalcError>)
        ensures
            reports_violation(
                r,
                first_number_violation(quantity@, avg_price@, target_profit@, max_loss@),
            ),
    {
        if quantity.micros <= 0 {
            return Err(Self::refusal(ValidationError::InvalidQuantity));
        }
        if avg_price.micros <= 0 {
            return Err(Self::refusal(ValidationError::InvalidPrice));
        }
        if target_profit.micros <= 0 {
            return Err(Self::refusal(ValidationError::InvalidTargetProfit));
        }
        if max_loss.micros <= 0 {
            return Err(Self::refusal(ValidationError::InvalidMaxLoss));
        }
        Ok(())
    }

    /// The error that reports `violation`.
    fn refusal(violation: ValidationError) -> (e: StockCalcError)
        ensures
            e matches StockCalcError::ValidationError(detail) && detail@
                == violation.message_text(),
    {
        StockCalcError::ValidationError(String::from_str(violation.message()))
    }

    /// Analyses a holding at a price and stamps the result with the current
    /// time. Everything but the stamp is determined by the arguments.
    pub fn calculate_analysis(stock_data: &StockData, current_price: Decimal) -> (r: StockAnalysis)
        requires
            analysable(stock_data@, current_price@),
        ensures
            r@ == analysis_of(stock_data@, current_price@, r.last_updated),
    {
        Self::analysis_at(stock_data, current_price, current_time())
    }

    /// Analyses a holding at a price if the figures are defined, and refuses
    /// it as an invalid number if a quantity, average price, maximum loss or
    /// price of zero would have something divided by zero.
    pub fn checked_analysis(stock_data: &StockData, current_price: Decimal) -> (r: Result<
        StockAnalysis,
        StockCalcError,
    >)
        ensures
            match r {
                Ok(analysis) => analysable(stock_data@, current_price@) && analysis@
                    == analysis_of(stock_data@, current_price@, analysis.last_updated),
                Err(StockCalcError::ValidationError(detail)) => !analysable(
                    stock_data@,
                    current_price@,
                ) && detail@ == ValidationError::InvalidNumber.message_text(),
                Err(_) => false,
            },
    {
        if stock_data.quantity.micros == 0 || stock_data.avg_price.micros == 0
            || stock_data.max_loss.micros == 0 || current_price.micros == 0 {
            return Err(Self::refusal(ValidationError::InvalidNumber));
        }
        Ok(Self::calculate_analysis(stock_data, current_price))
    }

    /// Analyses a holding at a price, with `at` as the time of the analysis.
    pub fn analysis_at(stock_data: &StockData, current_price: Decimal, at: Timestamp) -> (r:
        StockAnalysis)
        requires
            analysable(stock_data@, current_price@),
        ensures
            r@ == analysis_of(stock_data@, current_price@, at),
    {
        let investment_amount = stock_data.quantity.times(stock_data.avg_price);
        let target_price = stock_data.avg_price.plus(
            stock_data.target_profit.divided_up_by(stock_data.quantity),
        );
        let stop_loss_price = stock_data.avg_price.minus(
            stock_data.max_loss.divided_up_by(stock_data.quantity),
        );
        let gain = current_price.minus(stock_data.avg_price);
        let current_profit = gain.times(stock_data.quantity);
        let profit_ratio = gain.percent_outward_of(stock_data.avg_price);
        let distance_to_target = target_price.minus(current_price).percent_of(current_price);
        let distance_to_stop_loss = current_price.minus(stop_loss_price).percent_of(current_price);
        let risk_reward_ratio = stock_data.target_profit.divided_by(stock_data.max_loss);
        let investment_scale = Self::classify_investment_scale(investment_amount);
        let near_target = 20 * (current_price.micros as i128) - 19 * (stock_data.avg_price.micros
            as i128) >= divide_up(
            19_000_000 * (stock_data.target_profit.micros as i128),
            stock_data.quantity.micros as i128,
        );
        let near_stop_loss = 21 * (stock_data.avg_price.micros as i128) - 20 * (
        current_price.micros as i128) >= divide_up(
            21_000_000 * (stock_data.max_loss.micros as i128),
            stock_data.quantity.micros as i128,
        );
        let status = Self::status_by_rules(
            current_price,
            target_price,
            stop_loss_price,
            profit_ratio,
            near_target,
            near_stop_loss,
        );
        StockAnalysis {
            code: stock_data.code.clone(),
            current_price,
            quantity: stock_data.quantity,
            avg_price: stock_data.avg_price,
            target_profit: stock_data.target_profit,
            max_loss: stock_data.max_loss,
            target_price,
            stop_loss_price,
            current_profit,
            profit_ratio,
            distance_to_target,
            distance_to_stop_loss,
            risk_reward_ratio,
            investment_amount,
            investment_scale,
            status,
            last_updated: at,
        }
    }

    /// Classifies an invested amount.
    pub fn classify_investment_scale(investment_amount: Decimal) -> (scale: InvestmentScale)
        ensures
            scale == scale_of(investment_amount@),
    {
        if investment_amount.micros < 10_000_000_000 {
            InvestmentScale::Small
        } else if investment_amount.micros <= 100_000_000_000 {
            InvestmentScale::Medium
        } else {
            InvestmentScale::Large
        }
    }

    /// Classifies a holding by its current price, its two trigger prices and
    /// its profit ratio. Nearness is judged by the trigger prices given.
    pub fn determine_stock_status(
        current_price: Decimal,
        target_price: Decimal,
        stop_loss_price: Decimal,
        profit_ratio: Decimal,
    ) -> (status: StockStatus)
        ensures
            status == status_of(current_price@, target_price@, stop_loss_price@, profit_ratio@),
    {
        let near_target = current_price.micros as i128 * 20 >= target_price.micros as i128 * 19;
        let near_stop_loss = current_price.micros as i128 * 20 <= stop_loss_price.micros as i128
            * 21;
        Self::status_by_rules(
            current_price,
            target_price,
            stop_loss_price,
            profit_ratio,
            near_target,
            near_stop_loss,
        )
    }

    /// Applies the rules of the status, in their order, with nearness to the
    /// trigger prices as given.
    pub fn status_by_rules(
        current_price: Decimal,
        target_price: Decimal,
        stop_loss_price: Decimal,
        profit_ratio: Decimal,
        near_target: bool,
        near_stop_loss: bool,
    ) -> (status: StockStatus)
        ensures
            status == status_by(
                current_price@,
                target_price@,
                stop_loss_price@,
                profit_ratio@,
                near_target,
                near_stop_loss,
            ),
    {
        if current_price.micros >= target_price.micros {
            StockStatus::AtTarget
        } else if current_price.micros <= stop_loss_price.micros {
            StockStatus::AtStopLoss
        } else if profit_ratio.micros > 0 {
            if near_target {
                StockStatus::NearTarget
            } else {
                StockStatus::Profitable
            }
        } else {
            if near_stop_loss {
                StockStatus::NearStopLoss
            } else {
                StockStatus::Loss
            }
        }
    }

    /// An amount of money as it is shown: the currency sign and the amount
    /// with three places after the point.
    pub fn format_currency(amount: Decimal) -> (text: String)
        ensures
            text@ == "¥"@ + fixed_text(amount@, 3),
    {
        String::from_str("¥").concat(amount.to_text(3).as_str())
    }

    /// A percentage as it is shown: the number with two places after the
    /// point and the percent sign.
    pub fn format_percentage(percentage: Decimal) -> (text: String)
        ensures
            text@ == fixed_text(percentage@, 2) + "%"@,
    {
        percentage.to_text(2).concat("%")
    }

    /// The advice that goes with a risk/reward ratio.
    pub fn get_risk_level(risk_reward_ratio: Decimal) -> (level: &'static str)
        ensures
            level@ == risk_level_text(risk_reward_ratio@),
    {
        if risk_reward_ratio.micros >= 3_000_000 {
            "优秀"
        } else if risk_reward_ratio.micros >= 2_000_000 {
            "良好"
        } else if risk_reward_ratio.micros >= 1_500_000 {
            "一般"
        } else {
            "较差"
        }
    }

    /// The name of an investment scale.
    pub fn get_investment_scale_text(scale: &InvestmentScale) -> (name: &'static str)
        ensures
            name@ == scale_text(*scale),
    {
        match scale {
            InvestmentScale::Small => "小额",
            InvestmentScale::Medium => "中等",
            InvestmentScale::Large => "大额",
        }
    }

    /// The sign shown for a status.
    pub fn get_status_emoji(status: &StockStatus) -> (sign: &'static str)
        ensures
            sign@ == status_emoji_text(*status),
    {
        match status {
            StockStatus::Profitable => "📈",
            StockStatus::Loss => "📉",
            StockStatus::AtTarget => "🎉",
            StockStatus::AtStopLoss => "⚠️",
            StockStatus::NearTarget => "🎯",
            StockStatus::NearStopLoss => "🚨",
        }
    }
}

/// At the average price there is neither profit nor loss: the current
/// profit and the profit ratio of a valid holding are both zero.
pub proof fn lemma_break_even_at_average_price(p: StockDataView, at: Timestamp)
    requires
        p.quantity > 0,
        p.avg_price > 0,
        p.target_profit > 0,
        p.max_loss > 0,
    ensures
        analysis_of(p, p.avg_price, at).current_profit == 0,
        analysis_of(p, p.avg_price, at).profit_ratio == 0,
{
    assert(0 * p.quantity == 0);
    lemma_profit_ratio_sign(p, p.avg_price);
}

/// The analysis is a function of the holding and the price: two analyses of
/// the same holding at the same price differ in their time stamps at most.
pub proof fn lemma_analysis_repeatable(
    p: StockDataView,
    price: int,
    first: Timestamp,
    second: Timestamp,
)
    ensures
        analysis_of(p, price, first) == (StockAnalysisView {
            last_updated: first,
            ..analysis_of(p, price, second)
        }),
{
}

/// The profit ratio has the sign of the exact ratio: it is positive exactly
/// where gain and average price have the same sign, and zero exactly at the
/// average price. For a positive average price it is positive exactly above
/// that price.
pub proof fn lemma_profit_ratio_sign(p: StockDataView, price: int)
    requires
        p.avg_price != 0,
    ensures
        profit_ratio_of(p, price) > 0 <==> (price > p.avg_price && p.avg_price > 0) || (price
            < p.avg_price && p.avg_price < 0),
        profit_ratio_of(p, price) == 0 <==> price == p.avg_price,
{
    let gain = difference(price, p.avg_price);
    let n = magnitude(gain * 100 * SCALE);
    let d = magnitude(p.avg_price);
    if gain == 0 {
        assert((n + d - 1) / d == 0) by (nonlinear_arith)
            requires
                n == 0,
                d >= 1,
        ;
    } else {
        assert((n + d - 1) / d >= 1) by (nonlinear_arith)
            requires
                n >= 1,
                d >= 1,
        ;
    }
}

/// Rounding up gives the least whole number `k` with `k * d >= n`, for a
/// positive `d`.
proof fn lemma_raised_quotient(n: int, d: int, y: int)
    requires
        d > 0,
    ensures
        y >= raised_quotient(n, d) <==> y * d >= n,
{
    let k = raised_quotient(n, d);
    if n >= 0 {
        let m = n + d - 1;
        vstd::arithmetic::div_mod::lemma_fundamental_div_mod(m, d);
        vstd::arithmetic::div_mod::lemma_mod_bound(m, d);
        assert(k * d >= n && (k - 1) * d < n) by (nonlinear_arith)
            requires
                m == d * k + m % d,
                0 <= m % d < d,
                m == n + d - 1,
        ;
    } else {
        let m = -n;
        vstd::arithmetic::div_mod::lemma_fundamental_div_mod(m, d);
        vstd::arithmetic::div_mod::lemma_mod_bound(m, d);
        assert(k * d >= n && (k - 1) * d < n) by (nonlinear_arith)
            requires
                m == d * (-k) + m % d,
                0 <= m % d < d,
                m == -n,
                d > 0,
        ;
    }
    if y >= k {
        assert(y * d >= k * d) by (nonlinear_arith)
            requires
                y >= k,
                d > 0,
        ;
    } else {
        assert(y * d <= (k - 1) * d) by (nonlinear_arith)
            requires
                y <= k - 1,
                d > 0,
        ;
    }
}

/// For a positive quantity the two trigger prices are exact: a price is at
/// or above the target price exactly if the gain on all units held reaches
/// the target profit, and at or below the stop-loss price exactly if the
/// loss on all units held reaches the maximum loss. This holds wherever the
/// prices can be represented.
pub proof fn lemma_trigger_prices_are_exact(p: StockDataView, price: int)
    requires
        p.quantity > 0,
        i64::MIN <= p.avg_price + raised_quotient(p.target_profit * SCALE, p.quantity) <= i64::MAX,
        i64::MIN <= raised_quotient(p.target_profit * SCALE, p.quantity) <= i64::MAX,
        i64::MIN <= p.avg_price - raised_quotient(p.max_loss * SCALE, p.quantity) <= i64::MAX,
        i64::MIN <= raised_quotient(p.max_loss * SCALE, p.quantity) <= i64::MAX,
    ensures
        price >= target_price_of(p) <==> (price - p.avg_price) * p.quantity >= p.target_profit
            * SCALE,
        price <= stop_loss_price_of(p) <==> (p.avg_price - price) * p.quantity >= p.max_loss
            * SCALE,
{
    lemma_raised_quotient(p.target_profit * SCALE, p.quantity, price - p.avg_price);
    lemma_raised_quotient(p.max_loss * SCALE, p.quantity, p.avg_price - price);
}

/// For a positive quantity nearness is exact: a price is near the target
/// exactly if it is at least 95 hundredths of the average price plus the
/// target profit for each unit, and near the stop-loss exactly if it is at
/// most 105 hundredths of the average price less the maximum loss for each
/// unit. Both are stated here with the quantity multiplied out.
pub proof fn lemma_nearness_is_exact(p: StockDataView, price: int)
    requires
        p.quantity > 0,
    ensures
        nears_target(p, price) <==> (20 * price - 19 * p.avg_price) * p.quantity >= 19
            * p.target_profit * SCALE,
        nears_stop_loss(p, price) <==> (21 * p.avg_price - 20 * price) * p.quantity >= 21
            * p.max_loss * SCALE,
{
    lemma_raised_quotient(19 * p.target_profit * SCALE, p.quantity, 20 * price - 19 * p.avg_price);
    lemma_raised_quotient(21 * p.max_loss * SCALE, p.quantity, 21 * p.avg_price - 20 * price);
}

/// The status that the rules give when every figure is taken exactly, with
/// no rounding, for a holding with a positive quantity and a positive
/// average price. Each comparison of the rules is written with the quantity
/// multiplied out: the price is at target if the gain on all units reaches
/// the target profit, and so on.
pub open spec fn exact_status(p: StockDataView, price: int) -> StockStatus {
    if (price - p.avg_price) * p.quantity >= p.target_profit * SCALE {
        StockStatus::AtTarget
    } else if (p.avg_price - price) * p.quantity >= p.max_loss * SCALE {
        StockStatus::AtStopLoss
    } else if price > p.avg_price {
        if (20 * price - 19 * p.avg_price) * p.quantity >= 19 * p.target_profit * SCALE {
            StockStatus::NearTarget
        } else {
            StockStatus::Profitable
        }
    } else {
        if (21 * p.avg_price - 20 * price) * p.quantity >= 21 * p.max_loss * SCALE {
            StockStatus::NearStopLoss
        } else {
            StockStatus::Loss
        }
    }
}

/// Rounding does not touch the status: wherever the two trigger prices can
/// be represented, the status of a holding with a positive quantity and a
/// positive average price is the one that the rules give for the exact
/// figures.
pub proof fn lemma_status_is_exact(p: StockDataView, price: int)
    requires
        p.quantity > 0,
        p.avg_price > 0,
        i64::MIN <= p.avg_price + raised_quotient(p.target_profit * SCALE, p.quantity) <= i64::MAX,
        i64::MIN <= raised_quotient(p.target_profit * SCALE, p.quantity) <= i64::MAX,
        i64::MIN <= p.avg_price - raised_quotient(p.max_loss * SCALE, p.quantity) <= i64::MAX,
        i64::MIN <= raised_quotient(p.max_loss * SCALE, p.quantity) <= i64::MAX,
    ensures
        status_at(p, price) == exact_status(p, price),
{
    lemma_trigger_prices_are_exact(p, price);
    lemma_nearness_is_exact(p, price);
    lemma_profit_ratio_sign(p, price);
}

/// Two analyses of one holding at one price, as `calculate_analysis` makes
/// them, agree in every field but the time stamp.
pub proof fn lemma_repeated_analyses_agree(
    first: StockAnalysisView,
    second: StockAnalysisView,
    p: StockDataView,
    price: int,
)
    requires
        first == analysis_of(p, price, first.last_updated),
        second == analysis_of(p, price, second.last_updated),
    ensures
        first == (StockAnalysisView { last_updated: first.last_updated, ..second }),
{
}

/// Inputs that break no rule can be analysed at any positive price: nothing
/// is divided by zero.
pub proof fn lemma_valid_input_is_analysable(p: StockDataView, price: int)
    requires
        first_violation(p.code, p.quantity, p.avg_price, p.target_profit, p.max_loss) is None,
        price > 0,
    ensures
        analysable(p, price),
{
}

/// For a valid holding the target price is not below the average price and
/// the stop-loss price is not above it, so the target price is never below
/// the stop-loss price.
pub proof fn lemma_targets_bracket_cost(p: StockDataView)
    requires
        p.quantity > 0,
        p.avg_price > 0,
        p.target_profit > 0,
        p.max_loss > 0,
        p.avg_price <= i64::MAX,
    ensures
        stop_loss_price_of(p) <= p.avg_price <= target_price_of(p),
{
}

/// Reaching the target decides the status, whatever else holds: a price at
/// or above the target price is at target even if it is also at or below the
/// stop-loss price.
pub proof fn lemma_target_takes_precedence(
    price: int,
    target: int,
    stop_loss: int,
    profit_ratio: int,
)
    requires
        price >= target,
    ensures
        status_of(price, target, stop_loss, profit_ratio) == StockStatus::AtTarget,
{
}

/// The same for a whole analysis: a holding whose price has reached its
/// target price is reported as at target.
pub proof fn lemma_analysis_at_target(p: StockDataView, price: int, at: Timestamp)
    requires
        price >= target_price_of(p),
    ensures
        analysis_of(p, price, at).status == StockStatus::AtTarget,
{
}

/// An amount is a medium investment exactly from 10,000 to 100,000, both
/// included.
pub proof fn lemma_medium_bounds(amount: int)
    ensures
        scale_of(amount) == InvestmentScale::Medium <==> 10_000 * SCALE <= amount <= 100_000
            * SCALE,
        scale_of(amount) == InvestmentScale::Small <==> amount < 10_000 * SCALE,
        scale_of(amount) == InvestmentScale::Large <==> amount > 100_000 * SCALE,
{
}

} // verus!
