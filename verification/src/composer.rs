//! The shader composer: one pure transform that assembles a complete
//! fragment shader from the fixed preamble, one binding-declaration pair
//! per texture, the user's editable body verbatim, and the fixed suffix.

use crate::{FRAG_PREFIX, FRAG_SUFFIX};
use vstd::prelude::*;
use vstd::string::StringExecFns;

verus! {

/// The character of a single decimal digit.
pub open spec fn digit_char(d: nat) -> char {
    if d == 0 {
        '0'
    } else if d == 1 {
        '1'
    } else if d == 2 {
        '2'
    } else if d == 3 {
        '3'
    } else if d == 4 {
        '4'
    } else if d == 5 {
        '5'
    } else if d == 6 {
        '6'
    } else if d == 7 {
        '7'
    } else if d == 8 {
        '8'
    } else {
        '9'
    }
}

/// The decimal notation of a number, most significant digit first and
/// without leading zeros (zero itself is "0").
pub open spec fn spec_decimal(n: nat) -> Seq<char>
    decreases n,
{
    if n < 10 {
        seq![digit_char(n)]
    } else {
        spec_decimal(n / 10).push(digit_char(n % 10))
    }
}

/// The two binding declarations of the texture at index `i`: a 2D float
/// texture at binding 0 and a filtering sampler at binding 1, both in
/// group `i + 1` (group 0 is the uniform block's).
pub open spec fn spec_binding_decl(i: nat) -> Seq<char> {
    ("@group(")@ + spec_decimal(i + 1) + (") @binding(0)\nvar texture")@ + spec_decimal(i) + (
    ": texture_2d<f32>;\n@group(")@ + spec_decimal(i + 1) + (") @binding(1)\nvar sampler")@
        + spec_decimal(i) + (": sampler;\n")@
}

/// The binding declarations of `n` textures, in index order: empty for
/// `n == 0`, one texture/sampler pair per index otherwise.
pub open spec fn spec_binding_block(n: nat) -> Seq<char>
    decreases n,
{
    if n == 0 {
        Seq::empty()
    } else {
        spec_binding_block((n - 1) as nat) + spec_binding_decl((n - 1) as nat)
    }
}

/// The complete composed shader: preamble, binding block, the editable
/// body verbatim, suffix, separated by single newlines.
pub open spec fn spec_compose(body: Seq<char>, n: nat) -> Seq<char> {
    FRAG_PREFIX@ + ("\n")@ + spec_binding_block(n) + ("\n")@ + body + ("\n")@ + FRAG_SUFFIX@
}

/// A one-character string for a decimal digit.
fn digit_str(d: usize) -> (r: &'static str)
    requires
        d < 10,
    ensures
        r@ == seq![digit_char(d as nat)],
{
    let r: &'static str = if d == 0 {
        "0"
    } else if d == 1 {
        "1"
    } else if d == 2 {
        "2"
    } else if d == 3 {
        "3"
    } else if d == 4 {
        "4"
    } else if d == 5 {
        "5"
    } else if d == 6 {
        "6"
    } else if d == 7 {
        "7"
    } else if d == 8 {
        "8"
    } else {
        "9"
    };
    proof {
        reveal_strlit("0");
        reveal_strlit("1");
        reveal_strlit("2");
        reveal_strlit("3");
        reveal_strlit("4");
        reveal_strlit("5");
        reveal_strlit("6");
        reveal_strlit("7");
        reveal_strlit("8");
        reveal_strlit("9");
        assert(r@ =~= seq![digit_char(d as nat)]);
    }
    r
}

/// Appends the decimal notation of `n` to `out`.
fn push_decimal(out: &mut String, n: usize)
    ensures
        final(out)@ == old(out)@ + spec_decimal(n as nat),
    decreases n,
{
    if n >= 10 {
        push_decimal(out, n / 10);
    }
    out.append(digit_str(n % 10));
    proof {
        if n >= 10 {
            assert(final(out)@ =~= old(out)@ + spec_decimal(n as nat));
        } else {
            assert(final(out)@ =~= old(out)@ + spec_decimal(n as nat));
        }
    }
}

/// Composes a complete fragment shader from the editable body and the
/// texture count: the fixed preamble, then for each texture index in
/// `[0, texture_count)` a 2D texture and sampler declaration pair in
/// group `index + 1`, then the body verbatim, then the fixed suffix.
#[verifier::rlimit(60)]
pub fn concat_shader_frag(main_image: &str, texture_count: usize) -> (r: String)
    ensures
        r@ == spec_compose(main_image@, texture_count as nat),
{
    let mut out = String::new();
    out.append(FRAG_PREFIX);
    out.append("\n");
    let mut i: usize = 0;
    while i < texture_count
        invariant
            i <= texture_count,
            out@ == FRAG_PREFIX@ + ("\n")@ + spec_binding_block(i as nat),
        decreases texture_count - i,
    {
        let ghost pre = out@;
        out.append("@group(");
        push_decimal(&mut out, i + 1);
        out.append(") @binding(0)\nvar texture");
        push_decimal(&mut out, i);
        out.append(": texture_2d<f32>;\n@group(");
        push_decimal(&mut out, i + 1);
        out.append(") @binding(1)\nvar sampler");
        push_decimal(&mut out, i);
        out.append(": sampler;\n");
        proof {
            assert(out@ =~= pre + spec_binding_decl(i as nat));
            assert(out@ =~= FRAG_PREFIX@ + ("\n")@ + spec_binding_block((i + 1) as nat));
        }
        i = i + 1;
    }
    out.append("\n");
    out.append(main_image);
    out.append("\n");
    out.append(FRAG_SUFFIX);
    proof {
        assert(out@ =~= spec_compose(main_image@, texture_count as nat));
    }
    out
}

/// With no textures the composed shader holds no binding declarations:
/// it is exactly preamble, newline, newline, the body verbatim, newline,
/// suffix.
pub proof fn lemma_compose_no_textures(body: Seq<char>)
    ensures
        spec_binding_block(0) == Seq::<char>::empty(),
        spec_compose(body, 0) == FRAG_PREFIX@ + ("\n")@ + ("\n")@ + body + ("\n")@ + FRAG_SUFFIX@,
{
    assert(spec_compose(body, 0) =~= FRAG_PREFIX@ + ("\n")@ + ("\n")@ + body + ("\n")@
        + FRAG_SUFFIX@);
}

/// The composed shader embeds the editable body verbatim, as one
/// contiguous substring at a known offset.
pub proof fn lemma_compose_embeds_body(body: Seq<char>, n: nat)
    ensures
        ({
            let off = FRAG_PREFIX@.len() + 1 + spec_binding_block(n).len() + 1;
            spec_compose(body, n).subrange(off as int, off as int + body.len()) == body
        }),
{
    reveal_strlit("\n");
    let off = FRAG_PREFIX@.len() + 1 + spec_binding_block(n).len() + 1;
    assert(spec_compose(body, n).subrange(off as int, off as int + body.len()) =~= body);
}

/// Each texture index contributes exactly one texture/sampler declaration
/// pair, appended in ascending index order: the block for `n + 1` textures
/// is the block for `n` followed by the declarations of index `n`, whose
/// group number is `n + 1`.
pub proof fn lemma_binding_block_unfold(n: nat)
    ensures
        spec_binding_block(n + 1) == spec_binding_block(n) + spec_binding_decl(n),
{
}

} // verus!
