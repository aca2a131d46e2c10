//! The logic of the remote-repository collaborator that does not talk to the
//! remote tool itself: how a workflow file's content is decoded, how its
//! declared inputs become fields, the retry policy of the run lookup, and how
//! a run's report is put together.
use crate::domain::InputField;
use crate::text::{concat, concat3, join, joined, push_char};
use base64::Engine;
use vstd::prelude::*;

verus! {

/// The bytes that standard, padded base64 decodes `text` to; `None` when
/// `text` is not valid base64.
pub uninterp spec fn base64_decoded(text: Seq<char>) -> Option<Seq<u8>>;

/// The text that lossy UTF-8 decoding makes of `bytes`.
pub uninterp spec fn utf8_lossy(bytes: Seq<u8>) -> Seq<char>;

/// Relies on `base64::engine::general_purpose::STANDARD.decode`: its result
/// depends on the text alone; an invalid input gives an error, which is
/// passed on as its message.
#[verifier::external_body]
fn decode_base64(text: &str) -> (r: Result<Vec<u8>, String>)
    ensures
        r is Ok <==> base64_decoded(text@) is Some,
        r is Ok ==> r->Ok_0@ == base64_decoded(text@)->0,
{
    base64::engine::general_purpose::STANDARD.decode(text).map_err(|e| e.to_string())
}

/// Relies on `String::from_utf8_lossy`: its result depends on the bytes alone.
#[verifier::external_body]
fn lossy_text(bytes: &Vec<u8>) -> (r: String)
    ensures
        r@ == utf8_lossy(bytes@),
{
    String::from_utf8_lossy(bytes.as_slice()).into_owned()
}

/// `s` without its `\n` and `\r` characters.
pub open spec fn without_line_breaks(s: Seq<char>) -> Seq<char>
    decreases s.len(),
{
    if s.len() == 0 {
        s
    } else if s.last() == '\n' || s.last() == '\r' {
        without_line_breaks(s.drop_last())
    } else {
        without_line_breaks(s.drop_last()).push(s.last())
    }
}

/// The text of a workflow file whose content the remote tool returned as
/// line-wrapped base64.
pub open spec fn workflow_text(content: Seq<char>) -> Option<Seq<char>> {
    match base64_decoded(without_line_breaks(content)) {
        Some(b) => Some(utf8_lossy(b)),
        None => None,
    }
}

/// An input as declared in a workflow file, as plain values; each part is
/// `None` where the file does not give it in the expected form.
#[derive(Debug)]
pub struct DeclaredInput {
    pub name: Option<String>,
    pub description: Option<String>,
    pub required: Option<bool>,
    /// The default rendered as text (a string, a boolean or a number).
    pub default: Option<String>,
    pub input_type: Option<String>,
    /// The allowed values that are strings.
    pub options: Vec<String>,
}

/// What a declared input stands for, with the defaults for what is missing.
pub open spec fn or_else(v: Option<String>, d: Seq<char>) -> Seq<char> {
    match v {
        Some(s) => s@,
        None => d,
    }
}

/// `true` or `false`.
pub open spec fn bool_text(b: bool) -> Seq<char> {
    if b {
        "true"@
    } else {
        "false"@
    }
}

/// The line that describes a declared input: its name, description when
/// non-empty, type, whether it is required, default when non-empty and
/// allowed values when there are any.
pub open spec fn input_line(d: DeclaredInput) -> Seq<char> {
    let name = or_else(d.name, "unknown"@);
    let desc = or_else(d.description, Seq::empty());
    let default = or_else(d.default, Seq::empty());
    let options = d.options.deep_view();
    name + ":"@ + (if desc.len() > 0 { " "@ + desc } else { Seq::empty() }) + " [type: "@ + or_else(d.input_type, "string"@)
        + "]"@ + " [required: "@ + bool_text(d.required.unwrap_or(false)) + "]"@ + (if default.len() > 0 {
        " [default: "@ + default + "]"@
    } else {
        Seq::empty()
    }) + (if options.len() > 0 {
        " [options: "@ + joined(options, ", "@) + "]"@
    } else {
        Seq::empty()
    })
}

/// The field of a declared input: missing parts take their defaults and the
/// value starts as the default value.
pub open spec fn field_of(d: DeclaredInput, f: InputField) -> bool {
    &&& f.name@ == or_else(d.name, "unknown"@)
    &&& f.description@ == or_else(d.description, Seq::empty())
    &&& f.input_type@ == or_else(d.input_type, "string"@)
    &&& f.required == d.required.unwrap_or(false)
    &&& f.default_value@ == or_else(d.default, Seq::empty())
    &&& f.value@ == f.default_value@
    &&& f.options.deep_view() == d.options.deep_view()
}

/// How the lookup of a just-dispatched run goes on.
#[derive(Debug, PartialEq, Eq, Structural)]
pub enum LookupStep {
    /// List the latest run again, after the fixed delay when `wait` holds.
    Query { wait: bool },
    Found(u64),
    /// The attempts are spent.
    GiveUp,
}

/// How many times the latest run is listed before giving up.
pub const LOOKUP_ATTEMPTS: u32 = 5;

/// Seconds waited between two listings.
pub const LOOKUP_DELAY_SECS: u64 = 2;

/// The default of a string part that is missing.
fn text_or(v: &Option<String>, d: &str) -> (r: String)
    ensures
        r@ == or_else(*v, d@),
{
    match v {
        Some(s) => s.clone(),
        None => String::from_str(d),
    }
}

/// A line of text from the characters `s[from..to]`.
fn segment(s: &str, from: usize, to: usize) -> (r: String)
    requires
        from <= to <= s@.len(),
    ensures
        r@ == s@.subrange(from as int, to as int),
{
    s.substring_char(from, to).to_owned()
}

/// The lines of `s` as `str::lines` gives them: split at each `\n`, without a
/// final empty line, and each without a trailing `\r`.
pub open spec fn lines_of(s: Seq<char>) -> Seq<Seq<char>> {
    let segs = segments(s);
    let kept = if segs.last().len() == 0 { segs.drop_last() } else { segs };
    kept.map_values(|l: Seq<char>| if l.len() > 0 && l.last() == '\r' { l.drop_last() } else { l })
}

/// `s` split at each `\n`.
pub open spec fn segments(s: Seq<char>) -> Seq<Seq<char>>
    decreases s.len(),
{
    if s.len() == 0 {
        seq![Seq::empty()]
    } else {
        let p = segments(s.drop_last());
        if s.last() == '\n' {
            p.push(Seq::empty())
        } else {
            p.update(p.len() - 1, p.last().push(s.last()))
        }
    }
}

proof fn lemma_segments_nonempty(s: Seq<char>)
    ensures
        segments(s).len() >= 1,
    decreases s.len(),
{
    if s.len() > 0 {
        lemma_segments_nonempty(s.drop_last());
    }
}

/// The most log lines a run report keeps.
pub const LOG_TAIL_LINES: usize = 200;

/// The last `n` of `lines` (all of them when there are fewer).
pub open spec fn last_n(lines: Seq<Seq<char>>, n: nat) -> Seq<Seq<char>> {
    if lines.len() > n {
        lines.subrange(lines.len() - n, lines.len() as int)
    } else {
        lines
    }
}

/// The lines of `s`.
pub fn split_lines(s: &str) -> (r: Vec<String>)
    ensures
        r.deep_view() == lines_of(s@),
{
    let n = s.unicode_len();
    let mut done: Vec<String> = Vec::new();
    let mut start: usize = 0;
    let mut i: usize = 0;
    assert(s@.subrange(0, 0) =~= Seq::<char>::empty());
    assert(done.deep_view() =~= Seq::<Seq<char>>::empty());
    assert(segments(s@.subrange(0, 0)) =~= done.deep_view().push(s@.subrange(0, 0)));
    while i < n
        invariant
            n == s@.len(),
            start <= i <= n,
            segments(s@.subrange(0, i as int)) == done.deep_view().push(s@.subrange(start as int, i as int)),
        decreases n - i,
    {
        let c = s.get_char(i);
        assert(s@.subrange(0, i + 1).drop_last() =~= s@.subrange(0, i as int));
        if c == '\n' {
            let line = segment(s, start, i);
            done.push(line);
            start = i + 1;
            assert(s@.subrange(start as int, i + 1) =~= Seq::<char>::empty());
        } else {
            assert(s@.subrange(start as int, i + 1) =~= s@.subrange(start as int, i as int).push(c));
        }
        i = i + 1;
    }
    assert(s@.subrange(0, n as int) =~= s@);
    let ghost segs = segments(s@);
    proof {
        lemma_segments_nonempty(s@);
    }
    let last = segment(s, start, n);
    let ghost kept = if last@.len() == 0 { done.deep_view() } else { done.deep_view().push(last@) };
    if last.as_str().unicode_len() > 0 {
        done.push(last);
    }
    assert(kept == done.deep_view());
    assert(kept == if segs.last().len() == 0 { segs.drop_last() } else { segs }) by {
        if segs.last().len() == 0 {
            assert(segs.drop_last() =~= kept);
        } else {
            assert(segs =~= kept);
        }
    }
    let mut r: Vec<String> = Vec::new();
    let mut k: usize = 0;
    while k < done.len()
        invariant
            kept == done.deep_view(),
            k <= done.len(),
            r.deep_view() == kept.subrange(0, k as int).map_values(
                |l: Seq<char>| if l.len() > 0 && l.last() == '\r' { l.drop_last() } else { l },
            ),
        decreases done.len() - k,
    {
        let ghost pre = r.deep_view();
        let m = done[k].as_str().unicode_len();
        let line = if m > 0 && done[k].as_str().get_char(m - 1) == '\r' {
            segment(done[k].as_str(), 0, m - 1)
        } else {
            done[k].clone()
        };
        r.push(line);
        assert(done[k as int]@ == kept[k as int]);
        assert(r.deep_view() =~= pre.push(
            if kept[k as int].len() > 0 && kept[k as int].last() == '\r' { kept[k as int].drop_last() } else { kept[k as int] },
        ));
        assert(kept.subrange(0, k + 1).map_values(
            |l: Seq<char>| if l.len() > 0 && l.last() == '\r' { l.drop_last() } else { l },
        ) =~= kept.subrange(0, k as int).map_values(
            |l: Seq<char>| if l.len() > 0 && l.last() == '\r' { l.drop_last() } else { l },
        ).push(if kept[k as int].len() > 0 && kept[k as int].last() == '\r' { kept[k as int].drop_last() } else { kept[k as int] }));
        k = k + 1;
    }
    assert(kept.subrange(0, k as int) =~= kept);
    r
}

/// A unit handle on the remote-repository collaborator.
#[derive(Debug, Default)]
pub struct GitHubService;

impl GitHubService {
    pub fn new() -> (r: GitHubService)
        ensures
            r == GitHubService,
    {
        GitHubService
    }

    /// The text of a workflow file from its line-wrapped base64 content.
    pub fn workflow_file_text(content: &str) -> (r: Result<String, String>)
        ensures
            match r {
                Ok(t) => workflow_text(content@) == Some(t@),
                Err(_) => workflow_text(content@) is None,
            },
    {
        let n = content.unicode_len();
        let mut compact = String::new();
        let mut i: usize = 0;
        while i < n
            invariant
                n == content@.len(),
                i <= n,
                compact@ == without_line_breaks(content@.subrange(0, i as int)),
            decreases n - i,
        {
            let c = content.get_char(i);
            assert(content@.subrange(0, i + 1).drop_last() =~= content@.subrange(0, i as int));
            if c != '\n' && c != '\r' {
                push_char(&mut compact, c);
            }
            i = i + 1;
        }
        assert(content@.subrange(0, n as int) =~= content@);
        match decode_base64(compact.as_str()) {
            Ok(bytes) => Ok(lossy_text(&bytes)),
            Err(e) => Err(concat("Base64 decode error: ", e.as_str())),
        }
    }

    /// The display line and the field of a declared input.
    pub fn input_field(d: &DeclaredInput) -> (r: (String, InputField))
        ensures
            r.0@ == input_line(*d),
            field_of(*d, r.1),
    {
        proof {
            reveal_strlit("");
        }
        let name = text_or(&d.name, "unknown");
        let desc = text_or(&d.description, "");
        let default_value = text_or(&d.default, "");
        let input_type = text_or(&d.input_type, "string");
        let required = match d.required {
            Some(b) => b,
            None => false,
        };
        let ghost desc_part = if desc@.len() > 0 { " "@ + desc@ } else { Seq::empty() };
        let ghost default_part = if default_value@.len() > 0 { " [default: "@ + default_value@ + "]"@ } else { Seq::empty() };
        let ghost options_part = if d.options.deep_view().len() > 0 {
            " [options: "@ + joined(d.options.deep_view(), ", "@) + "]"@
        } else {
            Seq::empty()
        };
        let mut line = concat(name.as_str(), ":");
        if desc.as_str().unicode_len() > 0 {
            line.append(" ");
            line.append(desc.as_str());
        }
        assert(line@ =~= name@ + ":"@ + desc_part);
        line.append(" [type: ");
        line.append(input_type.as_str());
        line.append("]");
        line.append(" [required: ");
        let req_text = if required { "true" } else { "false" };
        assert(req_text@ == bool_text(required));
        line.append(req_text);
        line.append("]");
        assert(line@ =~= name@ + ":"@ + desc_part + " [type: "@ + input_type@ + "]"@ + " [required: "@ + bool_text(required) + "]"@);
        let ghost mid = line@;
        if default_value.as_str().unicode_len() > 0 {
            line.append(" [default: ");
            line.append(default_value.as_str());
            line.append("]");
        }
        assert(line@ =~= mid + default_part);
        let ghost mid2 = line@;
        if d.options.len() > 0 {
            let opts = join(&d.options, ", ");
            line.append(" [options: ");
            line.append(opts.as_str());
            line.append("]");
        }
        assert(line@ =~= mid2 + options_part);
        let options = d.options.clone();
        proof {
            broadcast use vstd::std_specs::vec::vec_clone_deep_view_proof;
        }
        let field = InputField {
            name,
            description: desc,
            input_type,
            required,
            value: default_value.clone(),
            default_value,
            options,
        };
        assert(field.name@ == or_else(d.name, "unknown"@));
        assert(field.description@ == or_else(d.description, Seq::empty()));
        assert(field.input_type@ == or_else(d.input_type, "string"@));
        assert(field.default_value@ == or_else(d.default, Seq::empty()));
        assert(field.options.deep_view() == d.options.deep_view());
        assert(field.required == d.required.unwrap_or(false));
        assert(field.value@ == field.default_value@);
        (line, field)
    }

    /// The display lines and fields of all declared inputs, in order.
    pub fn input_fields(ds: &Vec<DeclaredInput>) -> (r: (Vec<String>, Vec<InputField>))
        ensures
            r.0.deep_view() == ds@.map_values(|d: DeclaredInput| input_line(d)),
            r.1@.len() == ds@.len(),
            forall|k: int| 0 <= k < ds@.len() ==> field_of(ds@[k], #[trigger] r.1@[k]),
    {
        let mut lines: Vec<String> = Vec::new();
        let mut fields: Vec<InputField> = Vec::new();
        let mut k: usize = 0;
        while k < ds.len()
            invariant
                k <= ds.len(),
                lines.deep_view() == ds@.subrange(0, k as int).map_values(|d: DeclaredInput| input_line(d)),
                fields@.len() == k,
                forall|j: int| 0 <= j < k ==> field_of(ds@[j], #[trigger] fields@[j]),
            decreases ds.len() - k,
        {
            let ghost pre = lines.deep_view();
            let (line, field) = GitHubService::input_field(&ds[k]);
            lines.push(line);
            fields.push(field);
            assert(lines.deep_view() =~= pre.push(input_line(ds@[k as int])));
            assert(ds@.subrange(0, k + 1).map_values(|d: DeclaredInput| input_line(d)) =~= ds@.subrange(0, k as int).map_values(
                |d: DeclaredInput| input_line(d),
            ).push(input_line(ds@[k as int])));
            k = k + 1;
        }
        assert(ds@.subrange(0, k as int) =~= ds@);
        (lines, fields)
    }

    /// The API path of a workflow file's content, on `branch` when given.
    pub fn contents_path(repo: &str, workflow: &str, branch: Option<&str>) -> (r: String)
        ensures
            r@ == "repos/"@ + repo@ + "/contents/.github/workflows/"@ + workflow@ + match branch {
                Some(b) => "?ref="@ + b@,
                None => Seq::empty(),
            },
    {
        let mut p = concat3("repos/", repo, "/contents/.github/workflows/");
        p.append(workflow);
        match branch {
            Some(b) => {
                p.append("?ref=");
                p.append(b);
            },
            None => {},
        }
        p
    }

    /// The error of a query whose repository came back empty: the messages
    /// the API gave, joined with `"; "`, else that it was not found.
    pub fn graphql_error(messages: Option<&Vec<String>>) -> (r: String)
        ensures
            r@ == "GitHub API error: "@ + match messages {
                Some(m) => joined(m.deep_view(), "; "@),
                None => "Repository not found"@,
            },
    {
        match messages {
            Some(m) => {
                let j = join(m, "; ");
                concat("GitHub API error: ", j.as_str())
            },
            None => concat("GitHub API error: ", "Repository not found"),
        }
    }

    /// The retry policy of the latest-run lookup: after `attempt` listings,
    /// the last of which found `found`, stop with the run, list again (after
    /// the delay but before the first), or give up once the attempts are spent.
    pub fn lookup_step(attempt: u32, found: Option<u64>) -> (r: LookupStep)
        ensures
            found is Some ==> r == LookupStep::Found(found->0),
            found is None && attempt < LOOKUP_ATTEMPTS ==> r == (LookupStep::Query { wait: attempt > 0 }),
            found is None && attempt >= LOOKUP_ATTEMPTS ==> r == LookupStep::GiveUp,
    {
        match found {
            Some(id) => LookupStep::Found(id),
            None => if attempt < LOOKUP_ATTEMPTS {
                LookupStep::Query { wait: attempt > 0 }
            } else {
                LookupStep::GiveUp
            },
        }
    }

    /// The last lines of a run's log, joined with `\n`.
    pub fn tail_lines(log: &str) -> (r: String)
        ensures
            r@ == joined(last_n(lines_of(log@), LOG_TAIL_LINES as nat), "\n"@),
    {
        let lines = split_lines(log);
        let n = lines.len();
        let start = if n > LOG_TAIL_LINES { n - LOG_TAIL_LINES } else { 0 };
        let mut kept: Vec<String> = Vec::new();
        let mut k: usize = start;
        while k < n
            invariant
                n == lines@.len(),
                start <= k <= n,
                kept.deep_view() == lines.deep_view().subrange(start as int, k as int),
            decreases n - k,
        {
            let ghost pre = kept.deep_view();
            kept.push(lines[k].clone());
            assert(kept.deep_view() =~= pre.push(lines.deep_view()[k as int]));
            assert(kept.deep_view() =~= lines.deep_view().subrange(start as int, k + 1));
            k = k + 1;
        }
        assert(lines.deep_view().subrange(0, n as int) =~= lines.deep_view());
        join(&kept, "\n")
    }

    /// The status, conclusion and log text of a run: the status and
    /// conclusion read from its summary, or `unknown` and `pending` where
    /// they are missing; the tail of its log, or a note that the log is not
    /// available yet with the tool's message.
    pub fn get_run_logs(
        summary: Option<(Option<String>, Option<String>)>,
        log: Result<String, String>,
    ) -> (r: (String, String, String))
        ensures
            r.0@ == match summary {
                Some(s) => or_else(s.0, "unknown"@),
                None => "unknown"@,
            },
            r.1@ == match summary {
                Some(s) => or_else(s.1, "pending"@),
                None => "pending"@,
            },
            r.2@ == match log {
                Ok(text) => joined(last_n(lines_of(text@), LOG_TAIL_LINES as nat), "\n"@),
                Err(msg) => "(logs not yet available: "@ + msg@ + ")"@,
            },
    {
        let (status, conclusion) = match &summary {
            Some((s, c)) => (text_or(s, "unknown"), text_or(c, "pending")),
            None => (String::from_str("unknown"), String::from_str("pending")),
        };
        let logs = match &log {
            Ok(text) => GitHubService::tail_lines(text.as_str()),
            Err(msg) => concat3("(logs not yet available: ", msg.as_str(), ")"),
        };
        (status, conclusion, logs)
    }

    /// The report of the latest run: its id with its status, conclusion and log.
    pub fn get_latest_run_logs(
        &self,
        run_id: u64,
        summary: Option<(Option<String>, Option<String>)>,
        log: Result<String, String>,
    ) -> (r: (u64, String, String, String))
        ensures
            r.0 == run_id,
            ({
                let (s, c, l) = (r.1, r.2, r.3);
                &&& s@ == match summary {
                    Some(x) => or_else(x.0, "unknown"@),
                    None => "unknown"@,
                }
                &&& c@ == match summary {
                    Some(x) => or_else(x.1, "pending"@),
                    None => "pending"@,
                }
                &&& l@ == match log {
                    Ok(text) => joined(last_n(lines_of(text@), LOG_TAIL_LINES as nat), "\n"@),
                    Err(msg) => "(logs not yet available: "@ + msg@ + ")"@,
                }
            }),
    {
        let (status, conclusion, logs) = GitHubService::get_run_logs(summary, log);
        (run_id, status, conclusion, logs)
    }
}

} // verus!
