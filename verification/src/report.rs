//! The structure of an error report: its kind, message, location and labels.
use vstd::prelude::*;

verus! {

/// A report on the source text.
#[derive(Debug)]
pub struct Report {
    pub kind: ReportKind,
    pub code: Option<String>,
    pub msg: Option<String>,
    pub note: Option<String>,
    pub help: Option<String>,
    pub location: Range,
    pub labels: Vec<Label>,
}

/// How serious a report is.
#[derive(Debug, Clone, Copy, PartialEq, Eq, Structural)]
pub enum ReportKind {
    Error,
    Warning,
    Advice,
}

/// A span of the source text.
#[derive(Debug, Clone, Copy, PartialEq, Eq, Structural)]
pub struct Range {
    pub start: u32,
    pub end: u32,
}

/// A message attached to a span.
#[derive(Debug)]
pub struct Label {
    pub span: Range,
    pub msg: Option<String>,
    pub color: Option<Color>,
    pub order: i32,
    pub priority: i32,
}

/// The color a label is printed in.
#[derive(Debug, Clone, Copy, PartialEq, Eq, Hash, Structural)]
pub enum Color {
    Unset,
    Default,
    Black,
    Red,
    Green,
    Yellow,
    Blue,
    Magenta,
    Cyan,
    White,
    Fixed(u8),
    RGB(u8, u8, u8),
}

} // verus!
