//! The reports of parse errors: for each parse context, the message and the label that go
//! with an error at a place in the text.
use vstd::prelude::*;
use crate::error::{truncate_u32, MsgErr, ParseErrs};
use crate::matching::{
    regex_accepts, regex_compiles, regex_refusal_kind, regex_refusal_of, RefusalModel,
    RegexRefusal,
};
use crate::report::{Label, Range, Report, ReportKind};
use crate::text::{chars_of, push_str, str_eq, string_of};

verus! {

/// The message of a parse context whose report is fixed, and the text of the label it puts at
/// the place of the error, where it puts one.
pub open spec fn fixed_report(c: Seq<char>) -> Option<(Seq<char>, Option<Seq<char>>)> {
    if c == "block:open:{"@ {
        Some(("expecting '{' (open scope block)"@, Some("expecting '{' (open scope block)"@)))
    } else if c == "block:open:("@ {
        Some(("expecting '(' (open scope block)"@, Some("expecting '(' (open scope block)"@)))
    } else if c == "block:open:<"@ {
        Some(("expecting '<' (open scope block)"@, Some("expecting '<' (open scope block)"@)))
    } else if c == "block:open:["@ {
        Some(("expecting '[' (open scope block)"@, Some("expecting '[' (open scope block)"@)))
    } else if c == "block:close:}"@ {
        Some(("expecting '}' (close scope block)"@, Some("expecting '}' (close scope block)"@)))
    } else if c == "block:close:)"@ {
        Some(("expecting ')' (close scope block)"@, Some("expecting ')' (close scope block)"@)))
    } else if c == "block:close:>"@ {
        Some(("expecting '>' (close scope block)"@, Some("expecting '>' (close scope block)"@)))
    } else if c == "block:close:]"@ {
        Some(("expecting ']' (close scope block)"@, Some("expecting ']' (close scope block)"@)))
    } else if c == "block:close-before-open:}"@ {
        Some(("closing scope without an opening scope"@, Some("closing scope without an opening scope"@)))
    } else if c == "block:close-before-open:)"@ {
        Some(("closing scope without an opening scope"@, Some("closing scope without an opening scope"@)))
    } else if c == "block:close-before-open:>"@ {
        Some(("closing scope without an opening scope"@, Some("closing scope without an opening scope"@)))
    } else if c == "block:close-before-open:]"@ {
        Some(("closing scope without an opening scope"@, Some("closing scope without an opening scope"@)))
    } else if c == "capture-path"@ {
        Some(("Invalid capture path. Legal characters are filesystem characters plus captures $(var=.*) i.e. /users/$(user=.*)"@, Some("Illegal capture path"@)))
    } else if c == "point"@ {
        Some(("Invalid Point"@, Some("Invalid Point"@)))
    } else if c == "parsed-scopes"@ {
        Some(("expecting a properly formed scope"@, Some("not a scope"@)))
    } else if c == "scope"@ {
        Some(("expecting a properly formed scope"@, Some("not a scope"@)))
    } else if c == "root-scope:block"@ {
        Some(("expecting root scope block {}"@, Some("Expecting Scope Block"@)))
    } else if c == "pipeline:stop:expecting"@ {
        Some(("expecting a pipeline stop: point, call, or return ('&')"@, Some("Expecting Pipeline Stop"@)))
    } else if c == "pipeline:step"@ {
        Some(("expecting a pipeline step ('->', '=>', '-[ Bin ]->', etc...)"@, Some("Expecting Pipeline Step"@)))
    } else if c == "pipeline:step:entry"@ {
        Some(("expecting a pipeline step entry ('-' or '=') to form a pipeline step i.e. '->' or '=>'"@, Some("Expecting Pipeline Entry"@)))
    } else if c == "pipeline:step:exit"@ {
        Some(("expecting a pipeline step exit i.e. '->' or '=>'"@, Some("Expecting Pipeline Exit"@)))
    } else if c == "pipeline:step:payload"@ {
        Some(("Invalid payload filter"@, Some("invalid payload filter"@)))
    } else if c == "scope:expect-space-after-pipeline-step"@ {
        Some(("expecting a space after selection pipeline step (->)"@, Some("Expecting Space"@)))
    } else if c == "scope-selector-name:expect-alphanumeric-leading"@ {
        Some(("expecting a valid scope selector name starting with an alphabetic character"@, Some("Expecting Alpha Char"@)))
    } else if c == "scope-selector-name:expect-termination"@ {
        Some(("expecting scope selector to be followed by a space, a filter declaration: '(filter)->' or a sub scope selector: '<SubScope> or subscope terminator '>' '"@, Some("Bad Scope Selector Termination"@)))
    } else if c == "scope-selector-version-closing-tag"@ {
        Some(("expecting a closing parenthesis for the root version declaration (no spaces allowed) -> i.e. Bind(version=1.0.0)->"@, Some("missing closing parenthesis"@)))
    } else if c == "scope-selector-version-missing-kazing"@ {
        Some(("The version declaration needs a little style.  Try adding a '->' to it.  Make sure there are no spaces between the parenthesis and the -> i.e. Bind(version=1.0.0)->"@, Some("missing stylish arrow"@)))
    } else if c == "scope-selector-version"@ {
        Some(("Root config selector requires a version declaration with NO SPACES between the name and the version filter example: Bind(version=1.0.0)->"@, Some("bad version declaration"@)))
    } else if c == "scope-selector-name"@ {
        Some(("Expecting an alphanumeric scope selector name. example: Pipeline"@, Some("expecting scope selector"@)))
    } else if c == "root-scope-selector-name"@ {
        Some(("Expecting an alphanumeric root scope selector name and version. example: Bind(version=1.0.0)->"@, Some("expecting scope selector"@)))
    } else if c == "consume"@ {
        Some(("Expected to be able to consume the entire String"@, None))
    } else if c == "point:space_segment:dot_dupes"@ {
        Some(("Space Segment cannot have consecutive dots i.e. '..'"@, Some("Consecutive dots not allowed"@)))
    } else if c == "point:version:root_not_trailing"@ {
        Some(("Root filesystem is the only segment allowed to follow a bundle version i.e. 'space:base:2.0.0-version:/dir/somefile.txt'"@, Some("Only root file segment ':/' allowed here"@)))
    } else if c == "point:space_segment_leading"@ {
        Some(("The leading character of a Space segment must be a lowercase letter"@, Some("Invalid Leading Character"@)))
    } else if c == "point:space_segment"@ {
        Some(("A Point Space Segment must be all lowercase, alphanumeric with dashes and dots.  It follows Host and Domain name rules i.e. 'localhost', 'mechtron.io'"@, Some("Invalid Space Segment"@)))
    } else if c == "point:bad_leading"@ {
        Some(("The leading character must be a lowercase letter (for Base Segments) or a digit (for Version Segments)"@, Some("Invalid Leading Character"@)))
    } else if c == "point:base_segment"@ {
        Some(("A Point Base Segment must be 'skewer-case': all lowercase alphanumeric with dashes. The leading character must be a letter."@, Some("Invalid Base Segment Character"@)))
    } else if c == "point:dir_pop"@ {
        Some(("A Point Directory Pop '..'"@, Some("Something is Wrong"@)))
    } else if c == "point:dir_segment"@ {
        Some(("A Point Dir Segment follows legal filesystem characters and must end in a '/'"@, Some("Illegal Character"@)))
    } else if c == "point:root_filesystem_segment"@ {
        Some(("Root FileSystem ':/'"@, Some("Illegal Character"@)))
    } else if c == "point:file_segment"@ {
        Some(("A Point File Segment follows legal filesystem characters"@, Some("Illegal Character"@)))
    } else if c == "point:file_or_directory"@ {
        Some(("A Point File Segment (Files & Directories) follows legal filesystem characters"@, Some("Illegal Character"@)))
    } else if c == "point:version_segment"@ {
        Some(("A Version Segment allows all legal SemVer characters"@, Some("Illegal Character"@)))
    } else if c == "filter-name"@ {
        Some(("Filter name must be skewer case with leading character"@, Some("Invalid filter name"@)))
    } else if c == "parsed-scope-selector-kazing"@ {
        Some(("Selector needs some style with the '->' operator either right after the Selector i.e.: 'Pipeline ->' or as part of the filter declaration i.e. 'Pipeline(auth)->'"@, Some("Missing or Invalid Kazing Operator( -> )"@)))
    } else if c == "variable"@ {
        Some(("variable name must be alphanumeric lowercase, dashes and dots.  Variables are preceded by the '$' operator and must be sorounded by curly brackets ${env.valid-variable-name}"@, None))
    } else if c == "variable:close"@ {
        Some(("variable name must be alphanumeric lowercase, dashes and dots.  Variables are preceded by the '$' operator and must be sorounded by curly brackets with no spaces ${env.valid-variable-name}"@, Some("Bad Variable Substitution"@)))
    } else if c == "child_perms"@ {
        Some(("expecting child permissions form csd (Create, Select, Delete) uppercase indicates set permission (CSD==full permission, csd==no permission)"@, None))
    } else if c == "particle_perms"@ {
        Some(("expecting particle permissions form rwx (Read, Write, Execute) uppercase indicates set permission (RWX==full permission, rwx==no permission)"@, None))
    } else if c == "permissions"@ {
        Some(("expecting permissions form 'csd-rwx' (Create,Select,Delete)-(Read,Write,Execute) uppercase indicates set permission (CSD-RWX==full permission, csd-rwx==no permission)"@, None))
    } else if c == "permissions_mask"@ {
        Some(("expecting permissions mask symbol '+' for 'Or' mask and '&' for 'And' mask. Example:  &csd-RwX removes ----R-X from current permission"@, None))
    } else if c == "privilege"@ {
        Some(("privilege name must be '*' for 'full' privileges or an alphanumeric lowercase, dashes and colons i.e. 'props:email:read'"@, None))
    } else if c == "access_grant:perm"@ {
        Some(("expecting permissions mask symbol '+' for 'Or' mask and '&' for 'And' mask. Example:  &csd-RwX removes ----R-X from current permission"@, None))
    } else if c == "access_grant:priv"@ {
        Some(("privilege name must be '*' for 'full' privileges or an alphanumeric lowercase, dashes and colons i.e. 'props:email:read'"@, None))
    } else if c == "access_grant:on"@ {
        Some(("expecting grant 'on' i.e.: 'grant perm +cSd+RwX on localhost:app:** to localhost:app:users:**<User>'"@, None))
    } else if c == "access_grant:to"@ {
        Some(("expecting grant 'to' i.e.: 'grant perm +cSd+RwX on localhost:app:** to localhost:app:users:**<User>'"@, None))
    } else if c == "point-subst-brute-force"@ {
        Some(("not expecting variables or working point context '.'/'..' in this point"@, None))
    } else if c == "access_grant_kind"@ {
        Some(("expecting access grant kind ['super','perm','priv']"@, None))
    } else {
        None
    }
}

/// The text of an optional text.
pub open spec fn opt_text(s: Option<&str>) -> Option<Seq<char>> {
    match s {
        Some(t) => Some(t@),
        None => None,
    }
}

fn fixed_report_exec(c: &str) -> (r: Option<(&'static str, Option<&'static str>)>)
    ensures
        match r {
            Some((m, l)) => fixed_report(c@) == Some((m@, opt_text(l))),
            None => fixed_report(c@) is None,
        },
{
    if str_eq(c, "block:open:{") {
        return Some(("expecting '{' (open scope block)", Some("expecting '{' (open scope block)")));
    }
    if str_eq(c, "block:open:(") {
        return Some(("expecting '(' (open scope block)", Some("expecting '(' (open scope block)")));
    }
    if str_eq(c, "block:open:<") {
        return Some(("expecting '<' (open scope block)", Some("expecting '<' (open scope block)")));
    }
    if str_eq(c, "block:open:[") {
        return Some(("expecting '[' (open scope block)", Some("expecting '[' (open scope block)")));
    }
    if str_eq(c, "block:close:}") {
        return Some(("expecting '}' (close scope block)", Some("expecting '}' (close scope block)")));
    }
    if str_eq(c, "block:close:)") {
        return Some(("expecting ')' (close scope block)", Some("expecting ')' (close scope block)")));
    }
    if str_eq(c, "block:close:>") {
        return Some(("expecting '>' (close scope block)", Some("expecting '>' (close scope block)")));
    }
    if str_eq(c, "block:close:]") {
        return Some(("expecting ']' (close scope block)", Some("expecting ']' (close scope block)")));
    }
    if str_eq(c, "block:close-before-open:}") {
        return Some(("closing scope without an opening scope", Some("closing scope without an opening scope")));
    }
    if str_eq(c, "block:close-before-open:)") {
        return Some(("closing scope without an opening scope", Some("closing scope without an opening scope")));
    }
    if str_eq(c, "block:close-before-open:>") {
        return Some(("closing scope without an opening scope", Some("closing scope without an opening scope")));
    }
    if str_eq(c, "block:close-before-open:]") {
        return Some(("closing scope without an opening scope", Some("closing scope without an opening scope")));
    }
    if str_eq(c, "capture-path") {
        return Some(("Invalid capture path. Legal characters are filesystem characters plus captures $(var=.*) i.e. /users/$(user=.*)", Some("Illegal capture path")));
    }
    if str_eq(c, "point") {
        return Some(("Invalid Point", Some("Invalid Point")));
    }
    if str_eq(c, "parsed-scopes") {
        return Some(("expecting a properly formed scope", Some("not a scope")));
    }
    if str_eq(c, "scope") {
        return Some(("expecting a properly formed scope", Some("not a scope")));
    }
    if str_eq(c, "root-scope:block") {
        return Some(("expecting root scope block {}", Some("Expecting Scope Block")));
    }
    if str_eq(c, "pipeline:stop:expecting") {
        return Some(("expecting a pipeline stop: point, call, or return ('&')", Some("Expecting Pipeline Stop")));
    }
    if str_eq(c, "pipeline:step") {
        return Some(("expecting a pipeline step ('->', '=>', '-[ Bin ]->', etc...)", Some("Expecting Pipeline Step")));
    }
    if str_eq(c, "pipeline:step:entry") {
        return Some(("expecting a pipeline step entry ('-' or '=') to form a pipeline step i.e. '->' or '=>'", Some("Expecting Pipeline Entry")));
    }
    if str_eq(c, "pipeline:step:exit") {
        return Some(("expecting a pipeline step exit i.e. '->' or '=>'", Some("Expecting Pipeline Exit")));
    }
    if str_eq(c, "pipeline:step:payload") {
        return Some(("Invalid payload filter", Some("invalid payload filter")));
    }
    if str_eq(c, "scope:expect-space-after-pipeline-step") {
        return Some(("expecting a space after selection pipeline step (->)", Some("Expecting Space")));
    }
    if str_eq(c, "scope-selector-name:expect-alphanumeric-leading") {
        return Some(("expecting a valid scope selector name starting with an alphabetic character", Some("Expecting Alpha Char")));
    }
    if str_eq(c, "scope-selector-name:expect-termination") {
        return Some(("expecting scope selector to be followed by a space, a filter declaration: '(filter)->' or a sub scope selector: '<SubScope> or subscope terminator '>' '", Some("Bad Scope Selector Termination")));
    }
    if str_eq(c, "scope-selector-version-closing-tag") {
        return Some(("expecting a closing parenthesis for the root version declaration (no spaces allowed) -> i.e. Bind(version=1.0.0)->", Some("missing closing parenthesis")));
    }
    if str_eq(c, "scope-selector-version-missing-kazing") {
        return Some(("The version declaration needs a little style.  Try adding a '->' to it.  Make sure there are no spaces between the parenthesis and the -> i.e. Bind(version=1.0.0)->", Some("missing stylish arrow")));
    }
    if str_eq(c, "scope-selector-version") {
        return Some(("Root config selector requires a version declaration with NO SPACES between the name and the version filter example: Bind(version=1.0.0)->", Some("bad version declaration")));
    }
    if str_eq(c, "scope-selector-name") {
        return Some(("Expecting an alphanumeric scope selector name. example: Pipeline", Some("expecting scope selector")));
    }
    if str_eq(c, "root-scope-selector-name") {
        return Some(("Expecting an alphanumeric root scope selector name and version. example: Bind(version=1.0.0)->", Some("expecting scope selector")));
    }
    if str_eq(c, "consume") {
        return Some(("Expected to be able to consume the entire String", None));
    }
    if str_eq(c, "point:space_segment:dot_dupes") {
        return Some(("Space Segment cannot have consecutive dots i.e. '..'", Some("Consecutive dots not allowed")));
    }
    if str_eq(c, "point:version:root_not_trailing") {
        return Some(("Root filesystem is the only segment allowed to follow a bundle version i.e. 'space:base:2.0.0-version:/dir/somefile.txt'", Some("Only root file segment ':/' allowed here")));
    }
    if str_eq(c, "point:space_segment_leading") {
        return Some(("The leading character of a Space segment must be a lowercase letter", Some("Invalid Leading Character")));
    }
    if str_eq(c, "point:space_segment") {
        return Some(("A Point Space Segment must be all lowercase, alphanumeric with dashes and dots.  It follows Host and Domain name rules i.e. 'localhost', 'mechtron.io'", Some("Invalid Space Segment")));
    }
    if str_eq(c, "point:bad_leading") {
        return Some(("The leading character must be a lowercase letter (for Base Segments) or a digit (for Version Segments)", Some("Invalid Leading Character")));
    }
    if str_eq(c, "point:base_segment") {
        return Some(("A Point Base Segment must be 'skewer-case': all lowercase alphanumeric with dashes. The leading character must be a letter.", Some("Invalid Base Segment Character")));
    }
    if str_eq(c, "point:dir_pop") {
        return Some(("A Point Directory Pop '..'", Some("Something is Wrong")));
    }
    if str_eq(c, "point:dir_segment") {
        return Some(("A Point Dir Segment follows legal filesystem characters and must end in a '/'", Some("Illegal Character")));
    }
    if str_eq(c, "point:root_filesystem_segment") {
        return Some(("Root FileSystem ':/'", Some("Illegal Character")));
    }
    if str_eq(c, "point:file_segment") {
        return Some(("A Point File Segment follows legal filesystem characters", Some("Illegal Character")));
    }
    if str_eq(c, "point:file_or_directory") {
        return Some(("A Point File Segment (Files & Directories) follows legal filesystem characters", Some("Illegal Character")));
    }
    if str_eq(c, "point:version_segment") {
        return Some(("A Version Segment allows all legal SemVer characters", Some("Illegal Character")));
    }
    if str_eq(c, "filter-name") {
        return Some(("Filter name must be skewer case with leading character", Some("Invalid filter name")));
    }
    if str_eq(c, "parsed-scope-selector-kazing") {
        return Some(("Selector needs some style with the '->' operator either right after the Selector i.e.: 'Pipeline ->' or as part of the filter declaration i.e. 'Pipeline(auth)->'", Some("Missing or Invalid Kazing Operator( -> )")));
    }
    if str_eq(c, "variable") {
        return Some(("variable name must be alphanumeric lowercase, dashes and dots.  Variables are preceded by the '$' operator and must be sorounded by curly brackets ${env.valid-variable-name}", None));
    }
    if str_eq(c, "variable:close") {
        return Some(("variable name must be alphanumeric lowercase, dashes and dots.  Variables are preceded by the '$' operator and must be sorounded by curly brackets with no spaces ${env.valid-variable-name}", Some("Bad Variable Substitution")));
    }
    if str_eq(c, "child_perms") {
        return Some(("expecting child permissions form csd (Create, Select, Delete) uppercase indicates set permission (CSD==full permission, csd==no permission)", None));
    }
    if str_eq(c, "particle_perms") {
        return Some(("expecting particle permissions form rwx (Read, Write, Execute) uppercase indicates set permission (RWX==full permission, rwx==no permission)", None));
    }
    if str_eq(c, "permissions") {
        return Some(("expecting permissions form 'csd-rwx' (Create,Select,Delete)-(Read,Write,Execute) uppercase indicates set permission (CSD-RWX==full permission, csd-rwx==no permission)", None));
    }
    if str_eq(c, "permissions_mask") {
        return Some(("expecting permissions mask symbol '+' for 'Or' mask and '&' for 'And' mask. Example:  &csd-RwX removes ----R-X from current permission", None));
    }
    if str_eq(c, "privilege") {
        return Some(("privilege name must be '*' for 'full' privileges or an alphanumeric lowercase, dashes and colons i.e. 'props:email:read'", None));
    }
    if str_eq(c, "access_grant:perm") {
        return Some(("expecting permissions mask symbol '+' for 'Or' mask and '&' for 'And' mask. Example:  &csd-RwX removes ----R-X from current permission", None));
    }
    if str_eq(c, "access_grant:priv") {
        return Some(("privilege name must be '*' for 'full' privileges or an alphanumeric lowercase, dashes and colons i.e. 'props:email:read'", None));
    }
    if str_eq(c, "access_grant:on") {
        return Some(("expecting grant 'on' i.e.: 'grant perm +cSd+RwX on localhost:app:** to localhost:app:users:**<User>'", None));
    }
    if str_eq(c, "access_grant:to") {
        return Some(("expecting grant 'to' i.e.: 'grant perm +cSd+RwX on localhost:app:** to localhost:app:users:**<User>'", None));
    }
    if str_eq(c, "point-subst-brute-force") {
        return Some(("not expecting variables or working point context '.'/'..' in this point", None));
    }
    if str_eq(c, "access_grant_kind") {
        return Some(("expecting access grant kind ['super','perm','priv']", None));
    }
    None
}

/// A character that a variable substitution's text may run on with: `{`, an ASCII letter or
/// digit, `-`, `_`, or ASCII white space.
pub open spec fn var_run_char(c: char) -> bool {
    c == '{' || ('a' <= c <= 'z') || ('A' <= c <= 'Z') || ('0' <= c <= '9') || c == '-' || c
        == '_' || c == ' ' || c == '\t' || c == '\r' || c == '\n'
}

/// White space as Rust's `char::is_whitespace` has it.
pub open spec fn is_white(c: char) -> bool {
    ('\u{9}' <= c <= '\u{d}') || c == ' ' || c == '\u{85}' || c == '\u{a0}' || c
        == '\u{1680}' || ('\u{2000}' <= c <= '\u{200a}') || c == '\u{2028}' || c
        == '\u{2029}' || c == '\u{202f}' || c == '\u{205f}' || c == '\u{3000}'
}

/// The end of the run of characters from `i` on that `var` (`true`) or non white space
/// (`false`) allows.
pub open spec fn run_to(s: Seq<char>, i: int, var: bool) -> int
    decreases s.len() - i,
{
    if 0 <= i < s.len() && (if var {
        var_run_char(s[i])
    } else {
        !is_white(s[i])
    }) {
        run_to(s, i + 1, var)
    } else {
        i
    }
}

/// The width of the label of a bad variable substitution: the `$` and what follows it of a
/// substitution's characters, and one more; one where the text does not start with `$`.
pub open spec fn var_width(rest: Seq<char>) -> int {
    if rest.len() > 0 && rest[0] == '$' {
        if run_to(rest, 1, true) + 1 > usize::MAX {
            usize::MAX as int
        } else {
            run_to(rest, 1, true) + 1
        }
    } else {
        1
    }
}

/// The length of a text in bytes, as `str::len` gives it.
pub open spec fn byte_len(s: Seq<char>) -> int {
    (vstd::utf8::encode_utf8(s).len() as usize) as int
}

/// The report on a regex at the start of `rest`: none to be found where it starts with white
/// space; else, where the whole text compiles, an internal error; else regex's reason, with a
/// label on the regex's characters up to the first white space.
pub open spec fn regex_report(rest: Seq<char>) -> (Seq<char>, Option<(Seq<char>, int)>) {
    let ns = run_to(rest, 0, false);
    let w = byte_len(rest.take(ns));
    if ns == 0 {
        ("internal parse error: could not identify regex"@, None)
    } else if regex_accepts(rest) {
        ("internal parse error: regex error in this expression"@, None)
    } else {
        match regex_refusal_kind(rest) {
            RefusalModel::Syntax(t) => (
                "Regex Syntax Error: '"@ + t + "'"@,
                Some(("regex syntax error"@, w)),
            ),
            RefusalModel::TooBig => ("Regex compiled too big"@, Some(("regex compiled too big"@, w))),
            RefusalModel::Other => ("Regex is nonexhaustive"@, Some(("non-exhaustive regex"@, w))),
        }
    }
}

/// The message of the report on an error in parse context `c` at the text `rest`, and the
/// label it puts there with its width, where it puts one.
pub open spec fn err_report_of(c: Seq<char>, rest: Seq<char>) -> (
    Seq<char>,
    Option<(Seq<char>, int)>,
) {
    match fixed_report(c) {
        Some((m, l)) => (
            m,
            match l {
                Some(t) => Some((t, 0)),
                None => None,
            },
        ),
        None => if c == "var"@ {
            ("Variables should be lowercase skewer with a leading alphabet character and surrounded by ${} i.e.:'${var-name}' "@, Some(("Bad Variable Substitution"@, var_width(rest))))
        } else if c == "resolver-not-available"@ {
            (
                "Var & Working Point resolution are not available in this context"@,
                Some(("resolution not available"@, byte_len(rest))),
            )
        } else if c == "var-resolver-not-available"@ {
            (
                "Variable resolution is not available in this context"@,
                Some(("var resolution not available"@, byte_len(rest))),
            )
        } else if c == "ctx-resolver-not-available"@ {
            (
                "WorkingPoint resolution is not available in this context"@,
                Some(("working point resolution not available"@, byte_len(rest))),
            )
        } else if c == "regex"@ {
            regex_report(rest)
        } else {
            ("internal parser error: cannot determine an error message for parse context: "@ + c, None)
        },
    }
}

/// Reports hold one error report with the message `spec.0`, at the location every such
/// report gets, and the label of `spec.1` from `offset` on, over its width (each end where it
/// fits in 32 bits), or none.
pub open spec fn is_err_report(e: ParseErrs, offset: int, spec: (Seq<char>, Option<(Seq<char>, int)>)) -> bool {
    &&& e.report@.len() == 1
    &&& e.report@[0].kind == ReportKind::Error
    &&& e.report@[0].msg matches Some(m) && m@ == spec.0
    &&& e.report@[0].location == (Range { start: 23, end: 23 })
    &&& match spec.1 {
        None => e.report@[0].labels@.len() == 0,
        Some((l, w)) => {
            &&& e.report@[0].labels@.len() == 1
            &&& e.report@[0].labels@[0].msg matches Some(x) && x@ == l
            &&& offset <= u32::MAX ==> e.report@[0].labels@[0].span.start == offset
            &&& offset + w <= u32::MAX ==> e.report@[0].labels@[0].span.end == offset + w
        },
    }
}

pub fn run_to_exec(cs: &Vec<char>, i: usize, var: bool) -> (r: usize)
    requires
        i <= cs@.len(),
    ensures
        r == run_to(cs@, i as int, var),
        i <= r <= cs@.len(),
{
    let mut j = i;
    while j < cs.len()
        invariant
            i <= j <= cs@.len(),
            run_to(cs@, i as int, var) == run_to(cs@, j as int, var),
        decreases cs@.len() - j,
    {
        let c = cs[j];
        let ok = if var {
            c == '{' || ('a' <= c && c <= 'z') || ('A' <= c && c <= 'Z') || ('0' <= c && c <= '9')
                || c == '-' || c == '_' || c == ' ' || c == '\t' || c == '\r' || c == '\n'
        } else {
            !(('\u{9}' <= c && c <= '\u{d}') || c == ' ' || c == '\u{85}' || c == '\u{a0}'
                || c == '\u{1680}' || ('\u{2000}' <= c && c <= '\u{200a}') || c == '\u{2028}'
                || c == '\u{2029}' || c == '\u{202f}' || c == '\u{205f}' || c == '\u{3000}')
        };
        if !ok {
            return j;
        }
        j = j + 1;
    }
    j
}

/// The report on a parse error in the parse context `context` at byte `offset` of the source
/// `source`, where `rest` is the text from there on: the message and label that go with the
/// context, as `err_report_of` gives them.
pub fn create_err_report(context: &str, offset: usize, rest: &str, source: String) -> (r: MsgErr)
    ensures
        r matches MsgErr::ParseErrs(e) && e.source matches Some(s) && s@ == source@
            && is_err_report(e, offset as int, err_report_of(context@, rest@)),
{
    let ghost spec = err_report_of(context@, rest@);

    let (message, label): (String, Option<(String, usize)>) = match fixed_report_exec(context) {
        Some((m, l)) => (
            m.to_string(),
            match l {
                Some(t) => Some((t.to_string(), 0)),
                None => None,
            },
        ),
        None => {
            if str_eq(context, "var") {
                let cs = chars_of(rest);
                let w = if cs.len() > 0 && cs[0] == '$' {
                    run_to_exec(&cs, 1, true).saturating_add(1)
                } else {
                    1
                };
                (
                    "Variables should be lowercase skewer with a leading alphabet character and surrounded by ${} i.e.:'${var-name}' ".to_string(),
                    Some(("Bad Variable Substitution".to_string(), w)),
                )
            } else if str_eq(context, "resolver-not-available") {
                (
                    "Var & Working Point resolution are not available in this context".to_string(),
                    Some(("resolution not available".to_string(), rest.len())),
                )
            } else if str_eq(context, "var-resolver-not-available") {
                (
                    "Variable resolution is not available in this context".to_string(),
                    Some(("var resolution not available".to_string(), rest.len())),
                )
            } else if str_eq(context, "ctx-resolver-not-available") {
                (
                    "WorkingPoint resolution is not available in this context".to_string(),
                    Some(("working point resolution not available".to_string(), rest.len())),
                )
            } else if str_eq(context, "regex") {
                regex_report_exec(rest)
            } else {
                let mut m = "internal parser error: cannot determine an error message for parse context: ".to_string();
                push_str(&mut m, context);
                (m, None)
            }
        },
    };
    build_report(message, label, offset, source)
}

/// The view of an optional label and its width.
pub open spec fn label_view(l: Option<(String, usize)>) -> Option<(Seq<char>, int)> {
    match l {
        Some((t, w)) => Some((t@, w as int)),
        None => None,
    }
}

/// An error report with `message` and the label `label` at byte `offset` over its width, or
/// none, with `source` as its source.
pub fn build_report(message: String, label: Option<(String, usize)>, offset: usize, source: String) -> (r: MsgErr)
    ensures
        r matches MsgErr::ParseErrs(e) && e.source matches Some(s) && s@ == source@
            && is_err_report(e, offset as int, (message@, label_view(label))),
{
    let labels: Vec<Label> = match label {
        Some((l, w)) => {
            let mut v = Vec::new();
            v.push(
                Label {
                    span: Range { start: truncate_u32(offset), end: truncate_u32(offset.saturating_add(w)) },
                    msg: Some(l),
                    color: None,
                    order: 0,
                    priority: 0,
                },
            );
            v
        },
        None => Vec::new(),
    };
    let report = Report {
        kind: ReportKind::Error,
        code: None,
        msg: Some(message),
        note: None,
        help: None,
        location: Range { start: 23, end: 23 },
        labels,
    };
    MsgErr::ParseErrs(ParseErrs::from_report(report, source))
}

fn regex_report_exec(rest: &str) -> (r: (String, Option<(String, usize)>))
    ensures
        r.0@ == regex_report(rest@).0,
        match regex_report(rest@).1 {
            None => r.1 is None,
            Some((l, w)) => r.1 matches Some((x, v)) && x@ == l && v == w,
        },
{
    let cs = chars_of(rest);
    let ns = run_to_exec(&cs, 0, false);
    if ns == 0 {
        return ("internal parse error: could not identify regex".to_string(), None);
    }
    if regex_compiles(rest) {
        return ("internal parse error: regex error in this expression".to_string(), None);
    }
    let span = string_of(&cs, 0, ns);
    proof {
        assert(span@ =~= rest@.take(ns as int));
    }
    let w = span.as_str().len();
    assert(w == byte_len(rest@.take(ns as int)));
    match regex_refusal_of(rest) {
        RegexRefusal::Syntax(t) => {
            let mut m = "Regex Syntax Error: '".to_string();
            push_str(&mut m, t.as_str());
            push_str(&mut m, "'");
            (m, Some(("regex syntax error".to_string(), w)))
        },
        RegexRefusal::TooBig => (
            "Regex compiled too big".to_string(),
            Some(("regex compiled too big".to_string(), w)),
        ),
        RegexRefusal::Other => (
            "Regex is nonexhaustive".to_string(),
            Some(("non-exhaustive regex".to_string(), w)),
        ),
    }
}

/// The error for a parse that failed in the context `context` at position `p` of `input`: the
/// report of that context at that place, with the input as its source.
pub open spec fn is_context_error(x: MsgErr, input: Seq<char>, context: Seq<char>, p: int) -> bool {
    x matches MsgErr::ParseErrs(e) && e.source matches Some(s) && s@ == input && is_err_report(
        e,
        byte_len(input.take(p)),
        err_report_of(context, input.subrange(p, input.len() as int)),
    )
}

/// The error for a parse of `input` (whose characters are `cs`) that failed in the context
/// `context` at position `p`.
pub fn context_error(input: &str, cs: &Vec<char>, p: usize, context: &str) -> (r: MsgErr)
    requires
        cs@ == input@,
        p <= cs@.len(),
    ensures
        is_context_error(r, input@, context@, p as int),
{
    let before = string_of(cs, 0, p);
    let rest = string_of(cs, p, cs.len());
    assert(before@ =~= input@.take(p as int));
    let offset = before.as_str().len();
    create_err_report(context, offset, rest.as_str(), input.to_string())
}

/// Whether `x` is the error for a parse of `input` that failed in the context `context` at
/// position `p`, reported against the text `source`.
pub open spec fn is_context_error_from(
    x: MsgErr,
    source: Seq<char>,
    input: Seq<char>,
    context: Seq<char>,
    p: int,
) -> bool {
    x matches MsgErr::ParseErrs(e) && e.source matches Some(s) && s@ == source && is_err_report(
        e,
        byte_len(input.take(p)),
        err_report_of(context, input.subrange(p, input.len() as int)),
    )
}

/// The error for a parse of `input` (whose characters are `cs`) that failed in the context
/// `context` at position `p`, reported against the text `source`.
pub fn context_error_from(input: &str, cs: &Vec<char>, p: usize, context: &str, source: &str) -> (r: MsgErr)
    requires
        cs@ == input@,
        p <= cs@.len(),
    ensures
        is_context_error_from(r, source@, input@, context@, p as int),
{
    let before = string_of(cs, 0, p);
    let rest = string_of(cs, p, cs.len());
    assert(before@ =~= input@.take(p as int));
    let offset = before.as_str().len();
    create_err_report(context, offset, rest.as_str(), source.to_string())
}

} // verus!
