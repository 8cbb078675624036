use vstd::prelude::*;
use crate::error::PipelineError;
use crate::text::{append_str, push_char};

verus! {

/// The script text up to the opening quote of the picture's path.
pub const SCRIPT_HEAD: &'static str = "tell application \"System Events\"\ntell every desktop\nset picture to \"";

/// The script text from the closing quote of the picture's path on.
pub const SCRIPT_TAIL: &'static str = "\"\nend tell\nend tell\n";

/// One character of a path as it stands inside a quoted script string:
/// quotes and backslashes get a backslash in front.
pub open spec fn escape_char(c: char) -> Seq<char> {
    if c == '"' || c == '\\' {
        seq!['\\', c]
    } else {
        seq![c]
    }
}

/// A path as it stands inside a quoted script string.
pub open spec fn escaped(s: Seq<char>) -> Seq<char>
    decreases s.len(),
{
    if s.len() == 0 {
        Seq::empty()
    } else {
        escaped(s.drop_last()) + escape_char(s.last())
    }
}

/// How a script reads the text between a string's quotes: a backslash takes
/// the next character as it is, a bare quote ends the string early (`None`),
/// any other character stands for itself.
pub open spec fn reads_as(t: Seq<char>) -> Option<Seq<char>>
    decreases t.len(),
{
    if t.len() == 0 {
        Some(Seq::empty())
    } else if t[0] == '\\' {
        if t.len() >= 2 {
            match reads_as(t.subrange(2, t.len() as int)) {
                Some(r) => Some(seq![t[1]] + r),
                None => None,
            }
        } else {
            None
        }
    } else if t[0] == '"' {
        None
    } else {
        match reads_as(t.subrange(1, t.len() as int)) {
            Some(r) => Some(seq![t[0]] + r),
            None => None,
        }
    }
}

proof fn lemma_reads_as_concat(x: Seq<char>, y: Seq<char>)
    requires
        reads_as(x) is Some,
    ensures
        reads_as(x + y) == match reads_as(y) {
            Some(q) => Some(reads_as(x)->Some_0 + q),
            None => None,
        },
    decreases x.len(),
{
    if x.len() == 0 {
        assert(x + y =~= y);
        assert(reads_as(x)->Some_0 =~= Seq::<char>::empty());
        if reads_as(y) is Some {
            assert(reads_as(x)->Some_0 + reads_as(y)->Some_0 =~= reads_as(y)->Some_0);
        }
    } else {
        let k: int = if x[0] == '\\' { 2 } else { 1 };
        let rest = x.subrange(k, x.len() as int);
        assert((x + y).subrange(k, (x + y).len() as int) =~= rest + y);
        assert((x + y)[0] == x[0]);
        lemma_reads_as_concat(rest, y);
        if x[0] == '\\' {
            assert((x + y)[1] == x[1]);
        }
        if reads_as(y) is Some {
            let c = x[k - 1];
            assert(seq![c] + (reads_as(rest)->Some_0 + reads_as(y)->Some_0) =~= (seq![c]
                + reads_as(rest)->Some_0) + reads_as(y)->Some_0);
        }
    }
}

proof fn lemma_reads_as_escape_char(c: char)
    ensures
        reads_as(escape_char(c)) == Some(seq![c]),
{
    let t = escape_char(c);
    if c == '"' || c == '\\' {
        assert(t.subrange(2, t.len() as int) =~= Seq::<char>::empty());
        assert(reads_as(t.subrange(2, t.len() as int)) == Some(Seq::<char>::empty()));
    } else {
        assert(t.subrange(1, t.len() as int) =~= Seq::<char>::empty());
        assert(reads_as(t.subrange(1, t.len() as int)) == Some(Seq::<char>::empty()));
    }
    assert(seq![c] + Seq::<char>::empty() =~= seq![c]);
}

/// A quoted path reads back as exactly that path: no character of it can end
/// the script string or change what follows.
pub proof fn lemma_escaped_path_reads_back(path: Seq<char>)
    ensures
        reads_as(escaped(path)) == Some(path),
    decreases path.len(),
{
    if path.len() > 0 {
        let d = path.drop_last();
        let c = path.last();
        lemma_escaped_path_reads_back(d);
        lemma_reads_as_escape_char(c);
        lemma_reads_as_concat(escaped(d), escape_char(c));
        assert(d + seq![c] =~= path);
    } else {
        assert(escaped(path) =~= Seq::<char>::empty());
    }
}

/// Quotes `path` for a script string, so that no character of it can end the string.
pub fn escape_path(path: &str) -> (r: String)
    ensures
        r@ == escaped(path@),
{
    let mut r = String::new();
    let n = path.unicode_len();
    let mut i: usize = 0;
    while i < n
        invariant
            n == path@.len(),
            i <= n,
            r@ == escaped(path@.subrange(0, i as int)),
        decreases n - i,
    {
        let c = path.get_char(i);
        if c == '"' || c == '\\' {
            push_char(&mut r, '\\');
        }
        push_char(&mut r, c);
        let ghost next = path@.subrange(0, i + 1);
        assert(next.drop_last() == path@.subrange(0, i as int));
        assert(r@ =~= escaped(next));
        i += 1;
    }
    assert(path@.subrange(0, n as int) == path@);
    r
}

/// The script that sets the picture of every desktop to the file at `path`.
pub fn apply_script(path: &str) -> (r: String)
    ensures
        r@ == SCRIPT_HEAD@ + escaped(path@) + SCRIPT_TAIL@,
{
    let mut r = String::new();
    append_str(&mut r, SCRIPT_HEAD);
    let quoted = escape_path(path);
    append_str(&mut r, quoted.as_str());
    append_str(&mut r, SCRIPT_TAIL);
    assert(r@ =~= SCRIPT_HEAD@ + escaped(path@) + SCRIPT_TAIL@);
    r
}

/// A file is applied only if it exists and holds at least one byte.
pub fn check_applicable(exists: bool, size: u64) -> (r: Result<(), PipelineError>)
    ensures
        r is Ok <==> exists && size > 0,
        r is Err ==> r->Err_0 == PipelineError::ApplyFailed,
{
    if exists && size > 0 {
        Ok(())
    } else {
        Err(PipelineError::ApplyFailed)
    }
}

/// The outcome of running the apply command: `None` when it could not be run,
/// otherwise its exit status. Only a zero status is success.
pub fn apply_outcome(status: Option<i32>) -> (r: Result<(), PipelineError>)
    ensures
        r is Ok <==> status == Some(0i32),
        r is Err ==> r->Err_0 == PipelineError::ApplyFailed,
{
    match status {
        Some(0) => Ok(()),
        _ => Err(PipelineError::ApplyFailed),
    }
}

} // verus!
