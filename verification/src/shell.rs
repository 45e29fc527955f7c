//! Serialization and response handling for the shell-mediated backend.
//!
//! The backend renders the dialog through an out-of-process interpreter:
//! one command line invokes the scripting host's popup facility with a
//! positional argument list. This module defines that list exactly —
//! which fields appear, in which order, and when a trailing field is
//! omitted rather than left empty — along with the comma-joined command
//! text and the decoding of the captured output back into a typed
//! response.

use vstd::prelude::*;
use vstd::string::StrSliceExecFns;

use crate::dialog::{apply_setters, DialogView, Setter};
use crate::error::Error;
use crate::style::DialogStyle;
use crate::text::{
    dec_digits, int_literal_value, is_int_literal, sanitize_spec, stripped, utf8_bytes,
};

verus! {

/// Byte value of the comma that separates the positional arguments.
pub const COMMA: u8 = 44;

/// The duration field of the argument list: the seconds rendered in
/// decimal, or absent when no duration was set.
pub open spec fn duration_field(v: DialogView) -> Option<Seq<u8>> {
    match v.duration {
        Some(d) => Some(dec_digits(d as nat)),
        None => None,
    }
}

/// The header field of the argument list: the sanitized header text, or
/// absent when no custom header was set. An explicitly empty header is
/// present — it serializes to a quoted empty string — which is what
/// distinguishes it from no header at all.
pub open spec fn header_field(v: DialogView) -> Option<Seq<u8>> {
    match v.header {
        Some(h) => Some(sanitize_spec(utf8_bytes(h))),
        None => None,
    }
}

/// The style field of the argument list: the style code rendered in
/// decimal, or absent for the zero code of the default Ok-only layout,
/// which is also the popup facility's own default.
pub open spec fn style_field(code: u32) -> Option<Seq<u8>> {
    if code != 0 {
        Some(dec_digits(code as nat))
    } else {
        None
    }
}

/// An optional mid-list field: present fields keep their text, absent
/// ones become an empty placeholder.
pub open spec fn or_empty(field: Option<Seq<u8>>) -> Seq<u8> {
    match field {
        Some(s) => s,
        None => Seq::empty(),
    }
}

/// The positional argument list for the popup call: sanitized content,
/// then duration, header and style code in fixed order. A field that is
/// absent becomes an empty placeholder only when a field to its right is
/// present; trailing absent fields are omitted outright, never sent as
/// empty strings.
pub open spec fn popup_args_spec(v: DialogView, code: u32) -> Seq<Seq<u8>> {
    let content_arg = sanitize_spec(utf8_bytes(v.content));
    let dur = duration_field(v);
    let hdr = header_field(v);
    let sty = style_field(code);
    if sty is Some {
        seq![content_arg, or_empty(dur), or_empty(hdr), sty->0]
    } else if hdr is Some {
        seq![content_arg, or_empty(dur), hdr->0]
    } else if dur is Some {
        seq![content_arg, dur->0]
    } else {
        seq![content_arg]
    }
}

/// Inserting one style change at any point of a chain of non-style
/// setters leaves the serialized positional arguments exactly those of
/// the setters alone, plus the new style's code: a style change is the
/// identity on the configuration's fields, and the argument list is a
/// function of the fields and the code.
pub proof fn lemma_popup_args_order_independent(
    v: DialogView,
    ss: Seq<Setter>,
    i: int,
    code: u32,
)
    requires
        0 <= i <= ss.len(),
    ensures
        popup_args_spec(apply_setters(apply_setters(v, ss.take(i)), ss.skip(i)), code)
            == popup_args_spec(apply_setters(v, ss), code),
{
    crate::dialog::lemma_with_style_order_independent(v, ss, i);
}

/// The arguments joined with commas, in their fixed positional order.
pub open spec fn join_args_spec(args: Seq<Seq<u8>>) -> Seq<u8>
    decreases args.len(),
{
    if args.len() == 0 {
        Seq::empty()
    } else if args.len() == 1 {
        args[0]
    } else {
        args[0] + seq![COMMA] + join_args_spec(args.drop_first())
    }
}

/// Joining distributes over appending one more argument at the end.
proof fn lemma_join_args_push(args: Seq<Seq<u8>>, a: Seq<u8>)
    requires
        args.len() >= 1,
    ensures
        join_args_spec(args.push(a)) == join_args_spec(args) + seq![COMMA] + a,
    decreases args.len(),
{
    if args.len() == 1 {
        assert(args.push(a)[0] == args[0]);
        assert(args.push(a).drop_first() =~= seq![a]);
        assert(join_args_spec(seq![a]) == a);
        assert(join_args_spec(args.push(a)) =~= join_args_spec(args) + seq![COMMA] + a);
    } else {
        assert(args.push(a)[0] == args[0]);
        assert(args.push(a).drop_first() =~= args.drop_first().push(a));
        lemma_join_args_push(args.drop_first(), a);
        assert(join_args_spec(args.push(a)) =~= join_args_spec(args) + seq![COMMA] + a);
    }
}

/// Join a serialized argument list into the comma-separated text that
/// stands between the parentheses of the popup call.
pub fn join_args(args: &Vec<Vec<u8>>) -> (out: Vec<u8>)
    ensures
        out@ == join_args_spec(args.deep_view()),
{
    let mut out: Vec<u8> = Vec::new();
    let mut i: usize = 0;
    while i < args.len()
        invariant
            i <= args@.len(),
            args.deep_view().len() == args@.len(),
            forall|k: int|
                0 <= k < args@.len() ==> args.deep_view()[k] == #[trigger] args@[k]@,
            out@ == join_args_spec(args.deep_view().take(i as int)),
        decreases args@.len() - i,
    {
        proof {
            if i > 0 {
                lemma_join_args_push(args.deep_view().take(i as int), args.deep_view()[i as int]);
            }
            assert(args.deep_view().take(i as int).push(args.deep_view()[i as int]) =~= args
                .deep_view()
                .take(i + 1 as int));
        }
        if i > 0 {
            out.push(COMMA);
        }
        let arg = &args[i];
        let mut j: usize = 0;
        let ghost mid = out@;
        while j < arg.len()
            invariant
                j <= arg@.len(),
                out@ == mid + arg@.take(j as int),
            decreases arg@.len() - j,
        {
            let b = arg[j];
            out.push(b);
            proof {
                assert(arg@.take(j as int).push(b) =~= arg@.take(j + 1 as int));
            }
            j = j + 1;
        }
        proof {
            assert(arg@.take(arg@.len() as int) =~= arg@);
            assert(out@ =~= join_args_spec(args.deep_view().take(i + 1 as int)));
        }
        i = i + 1;
    }
    proof {
        assert(args.deep_view().take(args@.len() as int) =~= args.deep_view());
    }
    out
}

/// The complete interpreter command for the shell-mediated backend: the
/// popup invocation with the argument list between its parentheses.
pub open spec fn popup_command_spec(args: Seq<Seq<u8>>) -> Seq<u8> {
    utf8_bytes("(New-Object -ComObject Wscript.Shell).popup("@) + join_args_spec(args) + utf8_bytes(
        ")"@,
    )
}

/// Build the complete interpreter command from a serialized argument
/// list.
pub fn popup_command(args: &Vec<Vec<u8>>) -> (cmd: Vec<u8>)
    ensures
        cmd@ == popup_command_spec(args.deep_view()),
{
    let mut cmd: Vec<u8> = "(New-Object -ComObject Wscript.Shell).popup(".as_bytes_vec();
    let joined = join_args(args);
    let mut i: usize = 0;
    let ghost prefix = cmd@;
    while i < joined.len()
        invariant
            i <= joined@.len(),
            cmd@ == prefix + joined@.take(i as int),
        decreases joined@.len() - i,
    {
        let b = joined[i];
        cmd.push(b);
        proof {
            assert(joined@.take(i as int).push(b) =~= joined@.take(i + 1 as int));
        }
        i = i + 1;
    }
    proof {
        assert(joined@.take(joined@.len() as int) =~= joined@);
    }
    let suffix = ")".as_bytes_vec();
    let mut k: usize = 0;
    let ghost mid = cmd@;
    while k < suffix.len()
        invariant
            k <= suffix@.len(),
            cmd@ == mid + suffix@.take(k as int),
        decreases suffix@.len() - k,
    {
        let b = suffix[k];
        cmd.push(b);
        proof {
            assert(suffix@.take(k as int).push(b) =~= suffix@.take(k + 1 as int));
        }
        k = k + 1;
    }
    proof {
        assert(suffix@.take(suffix@.len() as int) =~= suffix@);
        assert(cmd@ =~= popup_command_spec(args.deep_view()));
    }
    cmd
}

/// What decoding the backend's captured output yields for the style `T`:
/// the output is stripped of its trailing terminator and parsed as a raw
/// code; a remainder that is no number in range is malformed, and a
/// number is decoded against the style's table.
pub open spec fn spec_handle_output<T: DialogStyle>(out: Seq<u8>) -> Result<T::Response, Error> {
    let s = stripped(out);
    if is_int_literal(s) && -2147483648 <= int_literal_value(s) <= 2147483647 {
        T::spec_decode(int_literal_value(s) as i32)
    } else {
        Err(Error::MalformedCode)
    }
}

/// Decode the shell-mediated backend's captured output for the style
/// `T`: parse the raw code, then decode it against the style's table.
/// The decisions are all here; the embedding application only runs the
/// interpreter and hands the captured bytes in.
pub fn handle_output<T: DialogStyle>(out: &[u8]) -> (r: Result<T::Response, Error>)
    ensures
        r == spec_handle_output::<T>(out@),
{
    match crate::text::parse_raw_code(out) {
        Ok(code) => T::decode(code),
        Err(e) => Err(e),
    }
}

} // verus!
