//! Session export through the `voiceforge` command-line tool: the format
//! check and argument list before the tool runs, and the reading of its
//! outcome afterwards.
use vstd::prelude::*;

verus! {

/// What `str::to_lowercase` returns for a string.
pub uninterp spec fn lower_of(s: Seq<char>) -> Seq<char>;

/// What `String::from_utf8_lossy` returns for a byte string.
pub uninterp spec fn lossy_of(b: Seq<u8>) -> Seq<char>;

/// What `str::trim` returns for a string.
pub uninterp spec fn trim_of(s: Seq<char>) -> Seq<char>;

/// Relies on `str::to_lowercase`: the lowercase mapping of each character,
/// which depends on the characters alone.
#[verifier::external_body]
fn lowercase(s: &str) -> (r: String)
    ensures
        r@ == lower_of(s@),
{
    s.to_lowercase()
}

/// Relies on `String::from_utf8_lossy`: the bytes read as UTF-8, invalid
/// sequences replaced, as a function of the bytes alone.
#[verifier::external_body]
fn utf8_lossy(b: &[u8]) -> (r: String)
    ensures
        r@ == lossy_of(b@),
{
    String::from_utf8_lossy(b).into_owned()
}

/// Relies on `str::trim`: the string without leading and trailing
/// whitespace, as a function of the string alone.
#[verifier::external_body]
fn trimmed(s: &str) -> (r: String)
    ensures
        r@ == trim_of(s@),
{
    s.trim().to_owned()
}

pub open spec fn spec_digit(d: nat) -> char {
    "0123456789"@[d as int]
}

/// Decimal notation of a natural number, without leading zeros.
pub open spec fn spec_decimal(n: nat) -> Seq<char>
    decreases n,
{
    if n < 10 {
        seq![spec_digit(n)]
    } else {
        spec_decimal(n / 10).push(spec_digit(n % 10))
    }
}

/// Relies on `ToString` for `u32`: its decimal notation.
#[verifier::external_body]
fn decimal(n: u32) -> (r: String)
    ensures
        r@ == spec_decimal(n as nat),
{
    n.to_string()
}

/// The two formats the tool can export to.
#[derive(Clone, Copy, Debug, PartialEq, Eq, Structural)]
pub enum ExportFormat {
    Markdown,
    Pdf,
}

pub open spec fn spec_format_name(f: ExportFormat) -> Seq<char> {
    match f {
        ExportFormat::Markdown => "md"@,
        ExportFormat::Pdf => "pdf"@,
    }
}

impl ExportFormat {
    /// The name the tool takes for the format.
    pub fn as_str(&self) -> (r: &'static str)
        ensures
            r@ == spec_format_name(*self),
    {
        match self {
            ExportFormat::Markdown => "md",
            ExportFormat::Pdf => "pdf",
        }
    }
}

pub open spec fn spec_format_error() -> Seq<char> {
    "format must be md or pdf"@
}

/// Reads an already lowercased format name: exactly "md" and "pdf" are
/// accepted.
pub fn parse_format(lowered: &String) -> (r: Result<ExportFormat, String>)
    ensures
        lowered@ == "md"@ ==> r == Ok::<ExportFormat, String>(ExportFormat::Markdown),
        lowered@ == "pdf"@ ==> r == Ok::<ExportFormat, String>(ExportFormat::Pdf),
        lowered@ != "md"@ && lowered@ != "pdf"@ ==> r is Err && r->Err_0@ == spec_format_error(),
{
    proof {
        reveal_strlit("md");
        reveal_strlit("pdf");
        assert("md"@.len() != "pdf"@.len());
    }
    let md = "md".to_owned();
    let pdf = "pdf".to_owned();
    if *lowered == md {
        Ok(ExportFormat::Markdown)
    } else if *lowered == pdf {
        Ok(ExportFormat::Pdf)
    } else {
        Err("format must be md or pdf".to_owned())
    }
}

/// A run of the export tool: program name and its arguments in order.
#[derive(Clone, Debug, PartialEq, Eq)]
pub struct ExportInvocation {
    pub program: String,
    pub args: Vec<String>,
}

pub struct ExportInvocationView {
    pub program: Seq<char>,
    pub args: Seq<Seq<char>>,
}

impl View for ExportInvocation {
    type V = ExportInvocationView;

    open spec fn view(&self) -> ExportInvocationView {
        ExportInvocationView { program: self.program@, args: self.args@.map_values(|a: String| a@) }
    }
}

/// `voiceforge export --id <id> --format <fmt>`.
pub open spec fn spec_invocation(session_id: u32, fmt: Seq<char>) -> ExportInvocationView {
    ExportInvocationView {
        program: "voiceforge"@,
        args: seq!["export"@, "--id"@, spec_decimal(session_id as nat), "--format"@, fmt],
    }
}

/// The tool run for an export, from the lowercased format name; an
/// unknown format is refused before anything runs.
pub fn export_invocation(session_id: u32, lowered: &String) -> (r: Result<ExportInvocation, String>)
    ensures
        (lowered@ == "md"@ || lowered@ == "pdf"@) ==> r is Ok && r->Ok_0@ == spec_invocation(session_id, lowered@),
        !(lowered@ == "md"@ || lowered@ == "pdf"@) ==> r is Err && r->Err_0@ == spec_format_error(),
{
    match parse_format(lowered) {
        Ok(f) => {
            let mut args: Vec<String> = Vec::new();
            args.push("export".to_owned());
            args.push("--id".to_owned());
            args.push(decimal(session_id));
            args.push("--format".to_owned());
            args.push(f.as_str().to_owned());
            let r = ExportInvocation { program: "voiceforge".to_owned(), args };
            assert(r@.args =~= spec_invocation(session_id, lowered@).args);
            Ok(r)
        },
        Err(e) => Err(e),
    }
}

/// The tool run that exports a session, with the format matched without
/// regard to case. Any format other than "md" or "pdf" fails here, and no
/// tool runs.
pub fn export_session(session_id: u32, format: &str) -> (r: Result<ExportInvocation, String>)
    ensures
        ({
            let fmt = lower_of(format@);
            &&& (fmt == "md"@ || fmt == "pdf"@) ==> r is Ok && r->Ok_0@ == spec_invocation(session_id, fmt)
            &&& !(fmt == "md"@ || fmt == "pdf"@) ==> r is Err && r->Err_0@ == spec_format_error()
        }),
{
    let fmt = lowercase(format);
    export_invocation(session_id, &fmt)
}

/// The result of an export from the tool's exit status and output: on
/// success its standard output without surrounding whitespace (the path of
/// the exported file), on failure its standard error text.
pub fn export_outcome(success: bool, stdout: &[u8], stderr: &[u8]) -> (r: Result<String, String>)
    ensures
        success ==> r is Ok && r->Ok_0@ == trim_of(lossy_of(stdout@)),
        !success ==> r is Err && r->Err_0@ == lossy_of(stderr@),
{
    if !success {
        return Err(utf8_lossy(stderr));
    }
    let out = utf8_lossy(stdout);
    Ok(trimmed(out.as_str()))
}

} // verus!
