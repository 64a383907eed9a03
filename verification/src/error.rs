//! Error values of the library.

use vstd::prelude::*;
use vstd::string::StringExecFns;

verus! {

/// Why a position was refused.
#[derive(Clone, Copy, Debug, PartialEq, Eq, Structural)]
pub enum ValidationError {
    InvalidStockCode,
    InvalidNumber,
    InvalidQuantity,
    InvalidPrice,
    InvalidTargetProfit,
    InvalidMaxLoss,
}

impl ValidationError {
    /// The text shown for this error.
    pub open spec fn message_text(self) -> Seq<char> {
        match self {
            ValidationError::InvalidStockCode => "股票代码格式无效"@,
            ValidationError::InvalidNumber => "数值必须大于0"@,
            ValidationError::InvalidQuantity => "持有数量必须为正数"@,
            ValidationError::InvalidPrice => "价格必须为正数"@,
            ValidationError::InvalidTargetProfit => "收益目标必须为正数"@,
            ValidationError::InvalidMaxLoss => "最大亏损必须为正数"@,
        }
    }

    /// The text shown for this error.
    pub fn message(&self) -> (m: &'static str)
        ensures
            m@ == self.message_text(),
    {
        match self {
            ValidationError::InvalidStockCode => "股票代码格式无效",
            ValidationError::InvalidNumber => "数值必须大于0",
            ValidationError::InvalidQuantity => "持有数量必须为正数",
            ValidationError::InvalidPrice => "价格必须为正数",
            ValidationError::InvalidTargetProfit => "收益目标必须为正数",
            ValidationError::InvalidMaxLoss => "最大亏损必须为正数",
        }
    }
}

/// The kinds of failure, one for each variant of `StockCalcError`.
#[derive(Clone, Copy, Debug, PartialEq, Eq, Structural)]
pub enum ErrorKind {
    Network,
    Parse,
    InvalidStockCode,
    Config,
    Storage,
    Validation,
    File,
    Json,
    Notification,
    ApiResponse,
    RetriesExhausted,
}

/// A failure of any part of the calculator. Each variant carries the detail
/// that is shown after the variant's own heading.
#[derive(Clone, Debug)]
pub enum StockCalcError {
    NetworkError(String),
    ParseError(String),
    InvalidStockCode(String),
    ConfigError(String),
    StorageError(String),
    ValidationError(String),
    FileError(String),
    JsonError(String),
    NotificationError(String),
    ApiResponseError(String),
    RetriesExhausted(String),
}

impl View for StockCalcError {
    type V = (ErrorKind, Seq<char>);

    /// An error as plain values: its kind and its detail.
    open spec fn view(&self) -> (ErrorKind, Seq<char>) {
        (self.kind(), self.detail_text())
    }
}

impl StockCalcError {
    /// The kind of this error.
    pub open spec fn kind(self) -> ErrorKind {
        match self {
            StockCalcError::NetworkError(_) => ErrorKind::Network,
            StockCalcError::ParseError(_) => ErrorKind::Parse,
            StockCalcError::InvalidStockCode(_) => ErrorKind::InvalidStockCode,
            StockCalcError::ConfigError(_) => ErrorKind::Config,
            StockCalcError::StorageError(_) => ErrorKind::Storage,
            StockCalcError::ValidationError(_) => ErrorKind::Validation,
            StockCalcError::FileError(_) => ErrorKind::File,
            StockCalcError::JsonError(_) => ErrorKind::Json,
            StockCalcError::NotificationError(_) => ErrorKind::Notification,
            StockCalcError::ApiResponseError(_) => ErrorKind::ApiResponse,
            StockCalcError::RetriesExhausted(_) => ErrorKind::RetriesExhausted,
        }
    }

    /// The heading that introduces the detail of this kind of error.
    pub open spec fn heading_text(self) -> Seq<char> {
        match self {
            StockCalcError::NetworkError(_) => "网络请求失败: "@,
            StockCalcError::ParseError(_) => "数据解析失败: "@,
            StockCalcError::InvalidStockCode(_) => "股票代码无效: "@,
            StockCalcError::ConfigError(_) => "配置错误: "@,
            StockCalcError::StorageError(_) => "存储错误: "@,
            StockCalcError::ValidationError(_) => "输入验证失败: "@,
            StockCalcError::FileError(_) => "文件操作失败: "@,
            StockCalcError::JsonError(_) => "JSON序列化失败: "@,
            StockCalcError::NotificationError(_) => "通知发送失败: "@,
            StockCalcError::ApiResponseError(_) => "API响应格式错误: "@,
            StockCalcError::RetriesExhausted(_) => "重试次数已用尽: "@,
        }
    }

    /// The detail carried by this error.
    pub open spec fn detail_text(self) -> Seq<char> {
        match self {
            StockCalcError::NetworkError(d) => d@,
            StockCalcError::ParseError(d) => d@,
            StockCalcError::InvalidStockCode(d) => d@,
            StockCalcError::ConfigError(d) => d@,
            StockCalcError::StorageError(d) => d@,
            StockCalcError::ValidationError(d) => d@,
            StockCalcError::FileError(d) => d@,
            StockCalcError::JsonError(d) => d@,
            StockCalcError::NotificationError(d) => d@,
            StockCalcError::ApiResponseError(d) => d@,
            StockCalcError::RetriesExhausted(d) => d@,
        }
    }

    /// The full text shown for this error: heading, then detail.
    pub open spec fn message_text(self) -> Seq<char> {
        self.heading_text() + self.detail_text()
    }

    /// The full text shown for this error.
    pub fn message(&self) -> (m: String)
        ensures
            m@ == self.message_text(),
    {
        match self {
            StockCalcError::NetworkError(d) => String::from_str("网络请求失败: ").concat(d.as_str()),
            StockCalcError::ParseError(d) => String::from_str("数据解析失败: ").concat(d.as_str()),
            StockCalcError::InvalidStockCode(d) => String::from_str("股票代码无效: ").concat(
                d.as_str(),
            ),
            StockCalcError::ConfigError(d) => String::from_str("配置错误: ").concat(d.as_str()),
            StockCalcError::StorageError(d) => String::from_str("存储错误: ").concat(d.as_str()),
            StockCalcError::ValidationError(d) => String::from_str("输入验证失败: ").concat(
                d.as_str(),
            ),
            StockCalcError::FileError(d) => String::from_str("文件操作失败: ").concat(d.as_str()),
            StockCalcError::JsonError(d) => String::from_str("JSON序列化失败: ").concat(d.as_str()),
            StockCalcError::NotificationError(d) => String::from_str("通知发送失败: ").concat(
                d.as_str(),
            ),
            StockCalcError::ApiResponseError(d) => String::from_str("API响应格式错误: ").concat(
                d.as_str(),
            ),
            StockCalcError::RetriesExhausted(d) => String::from_str("重试次数已用尽: ").concat(
                d.as_str(),
            ),
        }
    }
}

} // verus!
