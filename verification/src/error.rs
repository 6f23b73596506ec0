//! Errors: a status with a message, or a set of parse reports.
use vstd::prelude::*;
use crate::report::{Label, Range, Report, ReportKind};

verus! {

/// An error: an HTTP-like status with a message, or the reports of a failed parse.
#[derive(Debug)]
pub enum MsgErr {
    Status { status: u16, message: String },
    ParseErrs(ParseErrs),
}

/// The reports of a failed parse.
#[derive(Debug)]
pub struct ParseErrs {
    pub report: Vec<Report>,
    pub source: Option<String>,
}

/// Something that carries a status and a message.
pub trait StatusErr {
    spec fn spec_status(&self) -> u16;

    fn status(&self) -> (s: u16)
        ensures
            s == self.spec_status(),
    ;

    spec fn spec_message(&self) -> Seq<char>;

    fn message(&self) -> (r: String)
        ensures
            r@ == self.spec_message(),
    ;
}

/// The message that goes with a well known status.
pub open spec fn status_message(status: u16) -> Seq<char> {
    if status == 400 {
        "Bad Request"@
    } else if status == 404 {
        "Not Found"@
    } else if status == 403 {
        "Forbidden"@
    } else if status == 408 {
        "Timeout"@
    } else if status == 500 {
        "Internal Server Error"@
    } else {
        crate::text::decimal(status as nat) + " Error"@
    }
}

impl MsgErr {
    pub open spec fn is_status(&self, status: u16, message: Seq<char>) -> bool {
        match self {
            MsgErr::Status { status: s, message: m } => *s == status && m@ == message,
            _ => false,
        }
    }

    pub fn new(status: u16, message: &str) -> (r: Self)
        ensures
            r.is_status(status, message@),
    {
        MsgErr::Status { status, message: message.to_string() }
    }

    pub fn from_500(message: &str) -> (r: Self)
        ensures
            r.is_status(500, message@),
    {
        MsgErr::Status { status: 500, message: message.to_string() }
    }

    pub fn from_status(status: u16) -> (r: Self)
        ensures
            r.is_status(status, status_message(status)),
    {
        let message = if status == 400 {
            "Bad Request".to_string()
        } else if status == 404 {
            "Not Found".to_string()
        } else if status == 403 {
            "Forbidden".to_string()
        } else if status == 408 {
            "Timeout".to_string()
        } else if status == 500 {
            "Internal Server Error".to_string()
        } else {
            let mut m = crate::text::u64_to_string(status as u64);
            crate::text::push_str(&mut m, " Error");
            m
        };
        MsgErr::Status { status, message }
    }

    pub fn timeout() -> (r: Self)
        ensures
            r.is_status(408, "Timeout"@),
    {
        MsgErr::from_status(408)
    }

    pub fn server_error() -> (r: Self)
        ensures
            r.is_status(500, "Internal Server Error"@),
    {
        MsgErr::from_status(500)
    }

    pub fn forbidden() -> (r: Self)
        ensures
            r.is_status(403, "Forbidden"@),
    {
        MsgErr::err403()
    }

    pub fn forbidden_msg(msg: &str) -> (r: Self)
        ensures
            r.is_status(403, msg@),
    {
        MsgErr::Status { status: 403, message: msg.to_string() }
    }

    pub fn not_found() -> (r: Self)
        ensures
            r.is_status(404, "Not Found"@),
    {
        MsgErr::err404()
    }

    pub fn bad_request() -> (r: Self)
        ensures
            r.is_status(400, "Bad Request"@),
    {
        MsgErr::from_status(400)
    }

    pub fn err404() -> (r: Self)
        ensures
            r.is_status(404, "Not Found"@),
    {
        MsgErr::Status { status: 404, message: "Not Found".to_string() }
    }

    pub fn err403() -> (r: Self)
        ensures
            r.is_status(403, "Forbidden"@),
    {
        MsgErr::Status { status: 403, message: "Forbidden".to_string() }
    }

    pub fn err500() -> (r: Self)
        ensures
            r.is_status(500, "Internal Server Error"@),
    {
        MsgErr::Status { status: 500, message: "Internal Server Error".to_string() }
    }

    pub fn err400() -> (r: Self)
        ensures
            r.is_status(400, "Bad Request"@),
    {
        MsgErr::Status { status: 400, message: "Bad Request".to_string() }
    }

    /// The error for a parse problem in the span `range` of the source.
    pub fn parse_error(message: &str, label: &str, range: std::ops::Range<usize>) -> (r: Self)
        ensures
            r matches MsgErr::ParseErrs(e) && e.is_range_report(
                message@,
                label@,
                range.start as int,
                range.end as int,
            ),
    {
        MsgErr::ParseErrs(ParseErrs::from_range(message, label, range))
    }
}

impl Clone for MsgErr {
    /// A copy keeps the message only, as a status 500.
    fn clone(&self) -> (r: Self)
        ensures
            match self {
                MsgErr::Status { message, .. } => r.is_status(500, message@),
                MsgErr::ParseErrs(_) => r.is_status(500, "Error report"@),
            },
    {
        MsgErr::Status { status: 500, message: self.message() }
    }
}

/// An error in substituting variables.
pub struct SubstErr {}

impl StatusErr for MsgErr {
    open spec fn spec_status(&self) -> u16 {
        match self {
            MsgErr::Status { status, .. } => *status,
            MsgErr::ParseErrs(_) => 500,
        }
    }

    fn status(&self) -> (s: u16) {
        match self {
            MsgErr::Status { status, .. } => *status,
            MsgErr::ParseErrs(_) => 500u16,
        }
    }

    open spec fn spec_message(&self) -> Seq<char> {
        match self {
            MsgErr::Status { message, .. } => message@,
            MsgErr::ParseErrs(_) => "Error report"@,
        }
    }

    fn message(&self) -> (r: String) {
        match self {
            MsgErr::Status { message, .. } => message.clone(),
            MsgErr::ParseErrs(_) => "Error report".to_string(),
        }
    }
}

#[verifier::truncate]
pub(crate) fn truncate_u32(x: usize) -> (r: u32)
    ensures
        x <= u32::MAX ==> r == x,
{
    x as u32
}

impl ParseErrs {
    /// A single error report with the message `message`, at the location every such report
    /// gets, with the one label `label` on the span from `start` to `end` (each where it fits
    /// in 32 bits), and no source.
    pub open spec fn is_range_report(
        &self,
        message: Seq<char>,
        label: Seq<char>,
        start: int,
        end: int,
    ) -> bool {
        &&& self.report@.len() == 1
        &&& self.source is None
        &&& self.report@[0].kind == ReportKind::Error
        &&& self.report@[0].msg matches Some(m) && m@ == message
        &&& self.report@[0].location == (Range { start: 23, end: 23 })
        &&& self.report@[0].labels@.len() == 1
        &&& self.report@[0].labels@[0].msg matches Some(m) && m@ == label
        &&& start <= u32::MAX ==> self.report@[0].labels@[0].span.start == start
        &&& end <= u32::MAX ==> self.report@[0].labels@[0].span.end == end
    }

    /// A single report on a source text.
    pub fn from_report(report: Report, source: String) -> (r: Self)
        ensures
            r.report@ == seq![report],
            r.source == Some(source),
    {
        let mut reports = Vec::new();
        reports.push(report);
        ParseErrs { report: reports, source: Some(source) }
    }

    /// Reports a message labelled on a span of the source.
    pub fn from_range(message: &str, label: &str, range: std::ops::Range<usize>) -> (r: Self)
        ensures
            r.is_range_report(message@, label@, range.start as int, range.end as int),
    {
        let span = Range { start: truncate_u32(range.start), end: truncate_u32(range.end) };
        let label = Label {
            span,
            msg: Some(label.to_string()),
            color: None,
            order: 0,
            priority: 0,
        };
        let mut labels = Vec::new();
        labels.push(label);
        let report = Report {
            kind: ReportKind::Error,
            code: None,
            msg: Some(message.to_string()),
            note: None,
            help: None,
            location: Range { start: 23, end: 23 },
            labels,
        };
        let mut reports = Vec::new();
        reports.push(report);
        ParseErrs { report: reports, source: None }
    }

    /// Gathers the reports of several errors into one, in order, with the source of the first.
    pub fn fold(errs: Vec<ParseErrs>) -> (r: ParseErrs)
        ensures
            r.report@ == all_reports(errs@),
            errs@.len() > 0 ==> r.source == errs@[0].source,
            errs@.len() == 0 ==> r.source is None,
    {
        let source = if errs.len() > 0 {
            match &errs[0].source {
                Some(s) => Some(s.clone()),
                None => None,
            }
        } else {
            None
        };
        let ghost all = errs@;
        let mut report = Vec::new();
        let mut errs = errs;
        assert(report@ + all_reports(errs@) =~= all_reports(all));
        while errs.len() > 0
            invariant
                report@ + all_reports(errs@) == all_reports(all),
            decreases errs@.len(),
        {
            let ghost before = errs@;
            let mut e = errs.remove(0);
            assert(errs@ =~= before.drop_first());
            report.append(&mut e.report);
            assert(report@ + all_reports(errs@) =~= all_reports(all));
        }
        assert(report@ =~= all_reports(all));
        ParseErrs { report, source }
    }
}

/// The reports of several errors, one after the other.
pub open spec fn all_reports(errs: Seq<ParseErrs>) -> Seq<Report>
    decreases errs.len(),
{
    if errs.len() == 0 {
        Seq::empty()
    } else {
        errs[0].report@ + all_reports(errs.drop_first())
    }
}

impl MsgErr {
    /// The reports of this error: a status becomes a single report of its message.
    pub fn into_parse_errs(self) -> (r: ParseErrs)
        ensures
            self is ParseErrs ==> r == self->ParseErrs_0,
    {
        match self {
            MsgErr::Status { status: _, message } => {
                let report = Report {
                    kind: ReportKind::Error,
                    code: None,
                    msg: Some(message),
                    note: None,
                    help: None,
                    location: Range { start: 0, end: 0 },
                    labels: Vec::new(),
                };
                let mut reports = Vec::new();
                reports.push(report);
                ParseErrs { report: reports, source: None }
            },
            MsgErr::ParseErrs(errs) => errs,
        }
    }
}

impl From<String> for MsgErr {
    /// A message becomes a status 500 error.
    fn from(message: String) -> (r: Self) {
        MsgErr::Status { status: 500, message }
    }
}

impl vstd::std_specs::convert::FromSpecImpl<String> for MsgErr {
    open spec fn obeys_from_spec() -> bool {
        true
    }

    open spec fn from_spec(message: String) -> MsgErr {
        MsgErr::Status { status: 500, message }
    }
}

impl From<ParseErrs> for MsgErr {
    fn from(errs: ParseErrs) -> (r: Self) {
        MsgErr::ParseErrs(errs)
    }
}

impl vstd::std_specs::convert::FromSpecImpl<ParseErrs> for MsgErr {
    open spec fn obeys_from_spec() -> bool {
        true
    }

    open spec fn from_spec(errs: ParseErrs) -> MsgErr {
        MsgErr::ParseErrs(errs)
    }
}

} // verus!
