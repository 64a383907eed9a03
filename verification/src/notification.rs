//! The alerts that an analysis calls for. Showing an alert, sending it to
//! the desktop and playing a sound are left to the caller: these functions
//! say what is to be shown, sent and played.

use crate::config::AppConfig;
use crate::decimal::{Decimal, SCALE};
use crate::numeral::fixed_text;
use crate::models::{StockAnalysis, StockAnalysisView, StockStatus};
use vstd::prelude::*;
use vstd::string::StringExecFns;

verus! {

/// The colour in which an alert is shown.
#[derive(Clone, Copy, Debug, PartialEq, Eq, Structural)]
pub enum AlertColor {
    Green,
    Red,
    Yellow,
}

/// The sound that goes with an alert.
#[derive(Clone, Copy, Debug, PartialEq, Eq, Structural)]
pub enum AlertSound {
    Success,
    Warning,
}

/// An alert and the ways in which it is to be delivered.
#[derive(Debug)]
pub struct Alert {
    /// The heading of the alert.
    pub title: &'static str,
    /// What the alert says.
    pub body: String,
    /// Whether the alert is sent to the desktop.
    pub notify: bool,
    /// The command that plays the sound of the alert, if one is played.
    pub sound_command: Option<&'static str>,
    /// The colour of the heading on the terminal; `None` for plain text.
    pub color: Option<AlertColor>,
}

/// The heading of the alert for a status, if the status calls for one.
pub open spec fn alert_title(status: StockStatus) -> Option<Seq<char>> {
    match status {
        StockStatus::AtTarget => Some("🎉 目标达成!"@),
        StockStatus::AtStopLoss => Some("⚠️ 止损触发!"@),
        StockStatus::NearTarget => Some("🎯 接近目标!"@),
        StockStatus::NearStopLoss => Some("🚨 接近止损!"@),
        _ => None,
    }
}

/// What the alert for an analysis says. At the target and at the stop-loss
/// it names the current price; near them it names the distance that is left,
/// in percent. Numbers are shown with two places.
pub open spec fn alert_body(a: StockAnalysisView) -> Seq<char> {
    match a.status {
        StockStatus::AtTarget => "股票 "@ + a.code + " 已达到目标价格 ¥"@ + fixed_text(
            a.current_price,
            2,
        ),
        StockStatus::AtStopLoss => "股票 "@ + a.code + " 已达到止损价格 ¥"@ + fixed_text(
            a.current_price,
            2,
        ),
        StockStatus::NearTarget => "股票 "@ + a.code + " 距离目标价格还有 "@ + fixed_text(
            a.distance_to_target,
            2,
        ) + "%"@,
        StockStatus::NearStopLoss => "股票 "@ + a.code + " 距离止损价格还有 "@ + fixed_text(
            a.distance_to_stop_loss,
            2,
        ) + "%"@,
        _ => Seq::empty(),
    }
}

/// The sound of the alert for a status: reaching the target sounds a
/// success, reaching the stop-loss a warning, and nothing else sounds.
pub open spec fn alert_sound(status: StockStatus) -> Option<AlertSound> {
    match status {
        StockStatus::AtTarget => Some(AlertSound::Success),
        StockStatus::AtStopLoss => Some(AlertSound::Warning),
        _ => None,
    }
}

/// The colour of the alert for a status.
pub open spec fn alert_color(status: StockStatus) -> AlertColor {
    match status {
        StockStatus::AtTarget => AlertColor::Green,
        StockStatus::NearTarget => AlertColor::Yellow,
        _ => AlertColor::Red,
    }
}

/// The command that plays a sound.
pub open spec fn sound_command_text(sound: AlertSound) -> Seq<char> {
    match sound {
        AlertSound::Success => "afplay /System/Library/Sounds/Glass.aiff"@,
        AlertSound::Warning => "afplay /System/Library/Sounds/Basso.aiff"@,
    }
}

/// The advice that goes with a profit ratio: above 20 percent to sell in
/// parts, below minus 10 percent to stop the loss or buy more, else to hold.
pub open spec fn advice_text(profit_ratio: int) -> Seq<char> {
    if profit_ratio > 20 * SCALE {
        "考虑分批卖出"@
    } else if profit_ratio < -10 * SCALE {
        "考虑止损或补仓"@
    } else {
        "继续持有观察"@
    }
}

/// Decides which alerts an analysis calls for.
pub struct Notifier {
    pub config: AppConfig,
}

impl Notifier {
    /// A notifier that follows `config`.
    pub fn new(config: AppConfig) -> (notifier: Notifier)
        ensures
            notifier.config == config,
    {
        Notifier { config }
    }

    /// The alert that `analysis` calls for: one at the target, at the
    /// stop-loss and near either, none otherwise. The alert is sent to the
    /// desktop if notifications are switched on, its sound is played if it
    /// has one and sound is switched on, and it is shown in its colour if
    /// coloured output is switched on.
    pub fn check_alerts(&self, analysis: &StockAnalysis) -> (r: Option<Alert>)
        ensures
            r is Some <==> alert_title(analysis.status) is Some,
            r is Some ==> {
                &&& r->0.title@ == alert_title(analysis.status)->0
                &&& r->0.body@ == alert_body(analysis@)
                &&& r->0.notify == self.config.general.enable_notifications
                &&& r->0.sound_command is Some <==> self.config.general.enable_sound
                    && alert_sound(analysis.status) is Some
                &&& r->0.sound_command is Some ==> r->0.sound_command->0@ == sound_command_text(
                    alert_sound(analysis.status)->0,
                )
                &&& r->0.color == (if self.config.display.color_output {
                    Some(alert_color(analysis.status))
                } else {
                    None
                })
            },
    {
        let (title, body, sound, color) = match analysis.status {
            StockStatus::AtTarget => (
                "🎉 目标达成!",
                String::from_str("股票 ").concat(analysis.code.as_str()).concat(
                    " 已达到目标价格 ¥",
                ).concat(analysis.current_price.to_text(2).as_str()),
                Some(AlertSound::Success),
                AlertColor::Green,
            ),
            StockStatus::AtStopLoss => (
                "⚠️ 止损触发!",
                String::from_str("股票 ").concat(analysis.code.as_str()).concat(
                    " 已达到止损价格 ¥",
                ).concat(analysis.current_price.to_text(2).as_str()),
                Some(AlertSound::Warning),
                AlertColor::Red,
            ),
            StockStatus::NearTarget => (
                "🎯 接近目标!",
                String::from_str("股票 ").concat(analysis.code.as_str()).concat(
                    " 距离目标价格还有 ",
                ).concat(analysis.distance_to_target.to_text(2).as_str()).concat("%"),
                None,
                AlertColor::Yellow,
            ),
            StockStatus::NearStopLoss => (
                "🚨 接近止损!",
                String::from_str("股票 ").concat(analysis.code.as_str()).concat(
                    " 距离止损价格还有 ",
                ).concat(analysis.distance_to_stop_loss.to_text(2).as_str()).concat("%"),
                None,
                AlertColor::Red,
            ),
            _ => {
                return None;
            },
        };
        let sound_command = match sound {
            Some(s) => self.play_sound_alert(s),
            None => None,
        };
        let color = if self.config.display.color_output {
            Some(color)
        } else {
            None
        };
        Some(
            Alert {
                title,
                body,
                notify: self.config.general.enable_notifications,
                sound_command,
                color,
            },
        )
    }

    /// The command that plays `sound`, unless sound is switched off.
    pub fn play_sound_alert(&self, sound: AlertSound) -> (command: Option<&'static str>)
        ensures
            command is Some <==> self.config.general.enable_sound,
            command is Some ==> command->0@ == sound_command_text(sound),
    {
        if !self.config.general.enable_sound {
            return None;
        }
        match sound {
            AlertSound::Success => Some("afplay /System/Library/Sounds/Glass.aiff"),
            AlertSound::Warning => Some("afplay /System/Library/Sounds/Basso.aiff"),
        }
    }

    /// The advice that goes with a profit ratio.
    pub fn advice(profit_ratio: Decimal) -> (text: &'static str)
        ensures
            text@ == advice_text(profit_ratio@),
    {
        if profit_ratio.micros > 20_000_000 {
            "考虑分批卖出"
        } else if profit_ratio.micros < -10_000_000 {
            "考虑止损或补仓"
        } else {
            "继续持有观察"
        }
    }
}

} // verus!
