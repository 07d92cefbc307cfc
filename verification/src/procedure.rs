//! The procedure name that a request path under the `/rspc` scope names.
use vstd::prelude::*;
use vstd::utf8::*;
use vstd::string::StrSliceExecFns;
use crate::text::str_strip_prefix;

verus! {

/// The scope under which the adapter is mounted.
pub open spec fn scope_prefix() -> Seq<char> {
    seq!['/', 'r', 's', 'p', 'c']
}

/// A path from which a procedure name can be taken: it starts with the scope,
/// and the character right after the scope (the separator that is dropped)
/// is a single byte in UTF-8.
pub open spec fn is_procedure_path(path: Seq<char>) -> bool {
    &&& scope_prefix().is_prefix_of(path)
    &&& path.len() > scope_prefix().len()
    &&& (path[scope_prefix().len() as int] as u32) < 0x80
}

/// The procedure named by a path: what follows the scope and its separator.
pub open spec fn procedure_name_of(path: Seq<char>) -> Seq<char> {
    path.skip(scope_prefix().len() + 1int)
}

/// The path `/rspc/<name>` that the router's scope and the `/{id}` resource
/// give a procedure is a procedure path, and it names exactly `<name>`.
pub proof fn procedure_path_names_its_segment(name: Seq<char>)
    ensures
        is_procedure_path(scope_prefix() + seq!['/'] + name),
        procedure_name_of(scope_prefix() + seq!['/'] + name) == name,
{
    let path = scope_prefix() + seq!['/'] + name;
    assert(path[5] == '/');
    assert(scope_prefix().is_prefix_of(path)) by {
        assert(path.subrange(0, 5) =~= scope_prefix());
    }
    assert(path.skip(6) =~= name);
}

/// A path that does not start with `/rspc` names no procedure.
pub proof fn path_outside_scope_names_nothing(path: Seq<char>)
    requires
        !seq!['/', 'r', 's', 'p', 'c'].is_prefix_of(path),
    ensures
        !is_procedure_path(path),
{
}

/// The path `/rspc/<name>` names exactly `<name>`, spelled out character by
/// character.
pub proof fn scoped_path_names_its_tail(name: Seq<char>)
    ensures
        is_procedure_path(seq!['/', 'r', 's', 'p', 'c', '/'] + name),
        procedure_name_of(seq!['/', 'r', 's', 'p', 'c', '/'] + name) == name,
{
    let path = seq!['/', 'r', 's', 'p', 'c', '/'] + name;
    assert(path =~= scope_prefix() + seq!['/'] + name);
    procedure_path_names_its_segment(name);
}

/// Whether a procedure name can be taken from the path (the condition of
/// [`procedure_name`]).
pub fn names_procedure(path: &str) -> (ok: bool)
    ensures
        ok == is_procedure_path(path@),
{
    proof {
        reveal_strlit("/rspc");
        assert("/rspc"@ == scope_prefix());
    }
    match str_strip_prefix(path, "/rspc") {
        None => false,
        Some(rest) => {
            if rest.unicode_len() == 0 {
                false
            } else {
                let first = rest.get_char(0);
                assert(first == path@[5]);
                (first as u32) < 0x80
            }
        },
    }
}

/// Splitting the UTF-8 encoding of `s` after its first character, when that
/// character is ASCII, cuts at a character boundary and leaves the encoding of
/// the rest of `s`.
proof fn lemma_split_after_ascii(s: Seq<char>)
    requires
        s.len() > 0,
        (s[0] as u32) < 0x80,
    ensures
        valid_utf8(encode_utf8(s)),
        is_char_boundary(encode_utf8(s), 1),
        encode_utf8(s).subrange(1, encode_utf8(s).len() as int) == encode_utf8(s.drop_first()),
{
    let bytes = encode_utf8(s);
    encode_utf8_valid_utf8(s);
    encode_utf8_valid_utf8(s.drop_first());
    encode_utf8_first_scalar(s);
    assert(encode_scalar(s[0] as u32).len() == 1);
    assert(bytes == encode_scalar(s[0] as u32) + encode_utf8(s.drop_first()));
    assert(bytes.subrange(1, bytes.len() as int) =~= encode_utf8(s.drop_first()));
    assert(pop_first_scalar(bytes) == encode_utf8(s.drop_first()));
    reveal_with_fuel(is_char_boundary, 2);
}

/// Takes the procedure name out of a request path: the path without the scope
/// prefix and without the one character that separates them.
pub fn procedure_name(path: &str) -> (name: String)
    requires
        is_procedure_path(path@),
    ensures
        name@ == procedure_name_of(path@),
{
    broadcast use encode_utf8_decode_utf8;
    broadcast use vstd::string::to_string_from_display_ensures_for_str;

    proof {
        reveal_strlit("/rspc");
        assert("/rspc"@ == scope_prefix());
    }
    let rest = match str_strip_prefix(path, "/rspc") {
        Some(r) => r,
        None => {
            proof { assert(false); }
            path
        },
    };
    proof {
        assert(rest@ == path@.skip(5));
        lemma_split_after_ascii(rest@);
    }
    let (_, tail) = rest.split_at(1);
    proof {
        assert(encode_utf8(tail@) == encode_utf8(rest@.drop_first()));
        assert(decode_utf8(encode_utf8(tail@)) == tail@);
        assert(tail@ =~= path@.skip(6));
    }
    tail.to_string()
}

} // verus!
