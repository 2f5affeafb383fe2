//! The compiler invoker: builds the argument lists and the logged command
//! line of one external `typst` invocation, and interprets what the finished
//! process left behind. Launching the process happens outside this crate.

use vstd::prelude::*;
use vstd::string::*;
use vstd::utf8::{decode_utf8, valid_utf8};

use crate::errors::RelayError;
use crate::text::{decode_utf8_bytes, decode_utf8_lossy, lossy_decoded, utf8_error_text};

verus! {

/// What one finished compiler run left behind: whether it exited with status
/// zero, and its captured stdout and stderr bytes, buffered whole.
pub struct ProcessOutcome {
    pub success: bool,
    pub stdout: Vec<u8>,
    pub stderr: Vec<u8>,
}

/// What a successful query hands back: the path of the problems file the
/// caller must still write, and the stdout text — which is also exactly the
/// content to store at that path.
#[derive(Debug)]
pub struct QueryOutput {
    pub problems_path: String,
    pub stdout: String,
}

/// The argument list handed to the `typst` binary for one query:
/// `query <file> <problems-state> --one --field value`, asking for the
/// document's problems state as the raw value of its single match.
pub fn query_typst_args(file_path: &str) -> (r: Vec<String>)
    ensures
        r@.len() == 6,
        r@[0]@ == "query"@,
        r@[1]@ == file_path@,
        r@[2]@ == "<problems-state>"@,
        r@[3]@ == "--one"@,
        r@[4]@ == "--field"@,
        r@[5]@ == "value"@,
{
    let mut v: Vec<String> = Vec::new();
    v.push("query".to_owned());
    v.push(file_path.to_owned());
    v.push("<problems-state>".to_owned());
    v.push("--one".to_owned());
    v.push("--field".to_owned());
    v.push("value".to_owned());
    v
}

/// Interprets one finished query run. A non-zero exit surfaces as
/// `SubprocessError` whose message is the literal prefix
/// `"Typst query failed: "` followed by the lossily decoded stderr. On a
/// zero exit, stdout that is not valid UTF-8 surfaces as `EncodingError`;
/// otherwise the decoded stdout is returned together with the path
/// `<output_dir>problems.json` — a literal concatenation: the caller
/// supplies any trailing separator.
pub fn query_typst_outcome(outcome: ProcessOutcome, output_dir: &str) -> (r: Result<
    QueryOutput,
    RelayError,
>)
    ensures
        !outcome.success ==> (r matches Err(e) && e matches RelayError::SubprocessError(m) && m@
            == "Typst query failed: "@ + lossy_decoded(outcome.stderr@)),
        outcome.success && valid_utf8(outcome.stdout@) ==> (r matches Ok(q) && q.stdout@
            == decode_utf8(outcome.stdout@) && q.problems_path@ == output_dir@
            + "problems.json"@),
        outcome.success && !valid_utf8(outcome.stdout@) ==> (r matches Err(e) && e
            matches RelayError::EncodingError(m) && m@ == utf8_error_text(outcome.stdout@)),
{
    if !outcome.success {
        let detail = decode_utf8_lossy(&outcome.stderr);
        let msg = String::from_str("Typst query failed: ").concat(detail.as_str());
        return Err(RelayError::SubprocessError(msg));
    }
    match decode_utf8_bytes(outcome.stdout) {
        Err(m) => Err(RelayError::EncodingError(m)),
        Ok(s) => {
            let path = String::from_str(output_dir).concat("problems.json");
            Ok(QueryOutput { problems_path: path, stdout: s })
        },
    }
}

/// The argument sequence of one compile invocation:
/// `compile <input> <output>`, then one `--input <element>` pair for every
/// element of `args`, in order, each element passed through unchanged.
pub open spec fn compile_args_spec(
    input: Seq<char>,
    output: Seq<char>,
    args: Seq<Seq<char>>,
) -> Seq<Seq<char>>
    decreases args.len(),
{
    if args.len() == 0 {
        seq!["compile"@, input, output]
    } else {
        compile_args_spec(input, output, args.drop_last()) + seq!["--input"@, args.last()]
    }
}

/// Builds the argument list of one compile invocation, matching
/// `compile_args_spec` exactly.
pub fn compile_typst_args(input_file: &str, output_file: &str, args: &Vec<String>) -> (r: Vec<
    String,
>)
    ensures
        r.deep_view() == compile_args_spec(input_file@, output_file@, args.deep_view()),
{
    let mut v: Vec<String> = Vec::new();
    v.push("compile".to_owned());
    v.push(input_file.to_owned());
    v.push(output_file.to_owned());
    proof {
        assert(args.deep_view().take(0) =~= Seq::<Seq<char>>::empty());
        assert(v.deep_view() =~= seq!["compile"@, input_file@, output_file@]);
    }
    let mut i: usize = 0;
    while i < args.len()
        invariant
            i <= args.len(),
            args.deep_view().len() == args@.len(),
            v.deep_view() == compile_args_spec(input_file@, output_file@, args.deep_view().take(i as int)),
        decreases args.len() - i,
    {
        let ghost dv0 = v.deep_view();
        v.push("--input".to_owned());
        v.push(args[i].clone());
        proof {
            let adv = args.deep_view();
            assert(v.deep_view() =~= dv0 + seq!["--input"@, adv[i as int]]);
            assert(adv.take(i + 1).drop_last() =~= adv.take(i as int));
            assert(adv.take(i + 1).last() == adv[i as int]);
        }
        i += 1;
    }
    proof {
        assert(args.deep_view().take(args@.len() as int) =~= args.deep_view());
    }
    v
}

/// The logged reconstruction of a compile command line:
/// `typst compile "<input>" "<output>"`, then ` --input <element>` for every
/// element, in order. A best-effort diagnostic string; the executed argument
/// list stays structured and never passes through a shell.
pub open spec fn compile_display(input: Seq<char>, output: Seq<char>, args: Seq<Seq<char>>) -> Seq<
    char,
>
    decreases args.len(),
{
    if args.len() == 0 {
        "typst compile \""@ + input + "\" \""@ + output + "\""@
    } else {
        compile_display(input, output, args.drop_last()) + " --input "@ + args.last()
    }
}

/// Builds the human-readable command line that is logged before a compile
/// run, matching `compile_display` exactly.
pub fn compile_typst_display(input_file: &str, output_file: &str, args: &Vec<String>) -> (r: String)
    ensures
        r@ == compile_display(input_file@, output_file@, args.deep_view()),
{
    let mut disp = String::from_str("typst compile \"");
    disp.append(input_file);
    disp.append("\" \"");
    disp.append(output_file);
    disp.append("\"");
    proof {
        assert(args.deep_view().take(0) =~= Seq::<Seq<char>>::empty());
    }
    let mut i: usize = 0;
    while i < args.len()
        invariant
            i <= args.len(),
            args.deep_view().len() == args@.len(),
            disp@ == compile_display(input_file@, output_file@, args.deep_view().take(i as int)),
        decreases args.len() - i,
    {
        disp.append(" --input ");
        disp.append(args[i].as_str());
        proof {
            let dv = args.deep_view();
            assert(dv.take(i + 1).drop_last() =~= dv.take(i as int));
            assert(dv.take(i + 1).last() == dv[i as int]);
        }
        i += 1;
    }
    proof {
        assert(args.deep_view().take(args@.len() as int) =~= args.deep_view());
    }
    disp
}

/// Interprets one finished compile run. A non-zero exit surfaces as
/// `SubprocessError` whose message is the literal prefix
/// `"Typst compile failed: "` followed by the lossily decoded stderr. On a
/// zero exit, stdout that is not valid UTF-8 surfaces as `EncodingError`;
/// otherwise the decoded stdout is returned.
pub fn compile_typst_outcome(outcome: ProcessOutcome) -> (r: Result<String, RelayError>)
    ensures
        !outcome.success ==> (r matches Err(e) && e matches RelayError::SubprocessError(m) && m@
            == "Typst compile failed: "@ + lossy_decoded(outcome.stderr@)),
        outcome.success && valid_utf8(outcome.stdout@) ==> (r matches Ok(s) && s@ == decode_utf8(
            outcome.stdout@,
        )),
        outcome.success && !valid_utf8(outcome.stdout@) ==> (r matches Err(e) && e
            matches RelayError::EncodingError(m) && m@ == utf8_error_text(outcome.stdout@)),
{
    if !outcome.success {
        let detail = decode_utf8_lossy(&outcome.stderr);
        let msg = String::from_str("Typst compile failed: ").concat(detail.as_str());
        return Err(RelayError::SubprocessError(msg));
    }
    match decode_utf8_bytes(outcome.stdout) {
        Err(m) => Err(RelayError::EncodingError(m)),
        Ok(s) => Ok(s),
    }
}

} // verus!
