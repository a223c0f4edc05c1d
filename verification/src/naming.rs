//! Laws of the tuple naming scheme.
//!
//! A tuple's ABI symbol embeds the mangle of its ordered field-type
//! sequence.  The mangle is a spec function, so identical sequences yield
//! the identical symbol by construction; this module proves the converse
//! over the whole type domain.  The token set is uniquely decodable: each
//! primitive token is fixed by its first letter, and a declared name is
//! wrapped as `C<length>_<name>`, so no concatenation of tokens can be read
//! two ways — in particular two adjacent names can never trade characters.

use vstd::prelude::*;

use crate::fields::NormField;
use crate::fields::spec_normalized;
use crate::text::spec_concat;
use crate::text::spec_dec;
use crate::text::dec_digit;
use crate::ty::TypeRef;
use crate::ty::TypeDeclarations;
use crate::ty::spec_mangle_token;
use crate::shared_struct::SharedStruct;
use crate::shared_struct::spec_ffi_name_string;
use crate::shared_struct::spec_mangled;

verus! {

/// The ten decimal digit characters.
pub open spec fn is_dec_digit(c: char) -> bool {
    c == '0' || c == '1' || c == '2' || c == '3' || c == '4' || c == '5' || c == '6' || c == '7'
        || c == '8' || c == '9'
}

/// Every character of a decimal rendering is a digit.
proof fn lemma_dec_digits(n: nat)
    ensures
        forall|i: int| 0 <= i < spec_dec(n).len() ==> is_dec_digit(#[trigger] spec_dec(n)[i]),
    decreases n,
{
    if n >= 10 {
        lemma_dec_digits(n / 10);
        assert(spec_dec(n) == spec_dec(n / 10).push(dec_digit(n % 10)));
        assert forall|i: int| 0 <= i < spec_dec(n).len() implies is_dec_digit(
            #[trigger] spec_dec(n)[i],
        ) by {
            if i < spec_dec(n / 10).len() {
                assert(spec_dec(n)[i] == spec_dec(n / 10)[i]);
            } else {
                assert(spec_dec(n)[i] == dec_digit(n % 10));
            }
        }
    }
}

/// A decimal rendering is never empty.
proof fn lemma_dec_len(n: nat)
    ensures
        spec_dec(n).len() >= 1,
    decreases n,
{
    if n >= 10 {
        lemma_dec_len(n / 10);
    }
}

/// Decimal renderings are injective: equal digit strings come from equal
/// numbers.
proof fn lemma_dec_injective(a: nat, b: nat)
    requires
        spec_dec(a) == spec_dec(b),
    ensures
        a == b,
    decreases a,
{
    lemma_dec_len(a);
    lemma_dec_len(b);
    if a < 10 && b < 10 {
        assert(spec_dec(a)[0] == dec_digit(a));
        assert(spec_dec(b)[0] == dec_digit(b));
        assert(a == b);
    } else if a < 10 {
        lemma_dec_len(b / 10);
        assert(spec_dec(b).len() == spec_dec(b / 10).len() + 1);
        assert(false);
    } else if b < 10 {
        lemma_dec_len(a / 10);
        assert(spec_dec(a).len() == spec_dec(a / 10).len() + 1);
        assert(false);
    } else {
        assert(spec_dec(a) == spec_dec(a / 10).push(dec_digit(a % 10)));
        assert(spec_dec(b) == spec_dec(b / 10).push(dec_digit(b % 10)));
        assert(spec_dec(a / 10).len() == spec_dec(b / 10).len());
        assert(spec_dec(a)[spec_dec(a / 10).len() as int] == dec_digit(a % 10));
        assert(spec_dec(b)[spec_dec(b / 10).len() as int] == dec_digit(b % 10));
        assert(a % 10 == b % 10);
        assert(spec_dec(a / 10) =~= spec_dec(b / 10)) by {
            assert forall|i: int| 0 <= i < spec_dec(a / 10).len() implies #[trigger] spec_dec(
                a / 10,
            )[i] == spec_dec(b / 10)[i] by {
                assert(spec_dec(a)[i] == spec_dec(a / 10)[i]);
                assert(spec_dec(b)[i] == spec_dec(b / 10)[i]);
            }
        }
        lemma_dec_injective(a / 10, b / 10);
        assert(a == b);
    }
}

/// The first character of each mangle token identifies its kind: the
/// primitive tokens `i32`, `u8`, `bool`, `f64`, `String` start with five
/// distinct letters, and a declared-name token starts with `C`.
proof fn lemma_token_head(t: TypeRef)
    ensures
        spec_mangle_token(t).len() > 0,
        spec_mangle_token(t)[0] == (match t {
            TypeRef::I32 => 'i',
            TypeRef::U8 => 'u',
            TypeRef::Bool => 'b',
            TypeRef::F64 => 'f',
            TypeRef::Text => 'S',
            TypeRef::Custom(_) => 'C',
        }),
{
    reveal_strlit("i32");
    reveal_strlit("u8");
    reveal_strlit("bool");
    reveal_strlit("f64");
    reveal_strlit("String");
    reveal_strlit("C");
    reveal_strlit("_");
}

/// Dropping an equal prefix from equal concatenations leaves equal tails.
proof fn lemma_concat_cancel(x: Seq<char>, r1: Seq<char>, r2: Seq<char>)
    requires
        x + r1 == x + r2,
    ensures
        r1 == r2,
{
    assert((x + r1).len() == x.len() + r1.len());
    assert((x + r2).len() == x.len() + r2.len());
    assert(r1.len() == r2.len());
    assert forall|i: int| 0 <= i < r1.len() implies r1[i] == r2[i] by {
        assert((x + r1)[x.len() + i] == r1[i]);
        assert((x + r2)[x.len() + i] == r2[i]);
    }
    assert(r1 =~= r2);
}

/// Two declared-name tokens at the head of the same character stream carry
/// the same name: the explicit length after `C` ends at the first
/// non-digit, so the boundary between the name and what follows is fixed.
proof fn lemma_custom_token_prefix(n1: Seq<char>, n2: Seq<char>, r1: Seq<char>, r2: Seq<char>)
    requires
        "C"@ + spec_dec(n1.len()) + "_"@ + n1 + r1 == "C"@ + spec_dec(n2.len()) + "_"@ + n2 + r2,
    ensures
        n1 == n2,
{
    reveal_strlit("C");
    reveal_strlit("_");
    let d1 = spec_dec(n1.len());
    let d2 = spec_dec(n2.len());
    lemma_dec_digits(n1.len());
    lemma_dec_digits(n2.len());
    lemma_dec_len(n1.len());
    lemma_dec_len(n2.len());
    let p1 = "C"@ + d1;
    let p2 = p1 + "_"@;
    let p3 = p2 + n1;
    let s = p3 + r1;
    let q1 = "C"@ + d2;
    let q2 = q1 + "_"@;
    let q3 = q2 + n2;
    assert(s == q3 + r2);
    assert forall|j: int| 0 <= j < d1.len() implies s[1 + j] == d1[j] by {
        assert(p1[1 + j] == d1[j]);
        assert(p2[1 + j] == p1[1 + j]);
        assert(p3[1 + j] == p2[1 + j]);
        assert(s[1 + j] == p3[1 + j]);
    }
    assert(s[1 + d1.len() as int] == '_') by {
        assert(p2[1 + d1.len() as int] == "_"@[0]);
        assert(p3[1 + d1.len() as int] == p2[1 + d1.len() as int]);
        assert(s[1 + d1.len() as int] == p3[1 + d1.len() as int]);
    }
    assert forall|j: int| 0 <= j < d2.len() implies s[1 + j] == d2[j] by {
        assert(q1[1 + j] == d2[j]);
        assert(q2[1 + j] == q1[1 + j]);
        assert(q3[1 + j] == q2[1 + j]);
        assert((q3 + r2)[1 + j] == q3[1 + j]);
    }
    assert(s[1 + d2.len() as int] == '_') by {
        assert(q2[1 + d2.len() as int] == "_"@[0]);
        assert(q3[1 + d2.len() as int] == q2[1 + d2.len() as int]);
        assert((q3 + r2)[1 + d2.len() as int] == q3[1 + d2.len() as int]);
    }
    if d1.len() < d2.len() {
        assert(is_dec_digit(s[1 + d1.len() as int]));
        assert(false);
    }
    if d2.len() < d1.len() {
        assert(is_dec_digit(s[1 + d2.len() as int]));
        assert(false);
    }
    assert(d1 =~= d2);
    lemma_dec_injective(n1.len(), n2.len());
    assert forall|j: int| 0 <= j < n1.len() implies n1[j] == n2[j] by {
        assert(p3[2 + d1.len() as int + j] == n1[j]);
        assert(s[2 + d1.len() as int + j] == p3[2 + d1.len() as int + j]);
        assert(q3[2 + d2.len() as int + j] == n2[j]);
        assert((q3 + r2)[2 + d2.len() as int + j] == q3[2 + d2.len() as int + j]);
    }
    assert(n1 =~= n2);
}

/// Two type references denote the same declared type: equal primitives, or
/// named references whose names read the same.
pub open spec fn spec_same_ty(t1: TypeRef, t2: TypeRef) -> bool {
    match (t1, t2) {
        (TypeRef::Custom(n1), TypeRef::Custom(n2)) => n1@ == n2@,
        (TypeRef::I32, TypeRef::I32) => true,
        (TypeRef::U8, TypeRef::U8) => true,
        (TypeRef::Bool, TypeRef::Bool) => true,
        (TypeRef::F64, TypeRef::F64) => true,
        (TypeRef::Text, TypeRef::Text) => true,
        _ => false,
    }
}

/// Tuple mangle uniqueness, over the whole type domain: equal mangles come
/// from field-type sequences that are equal position by position.  (The
/// converse — identical sequences receive the identical mangle — holds by
/// construction: the mangle is a function of the type sequence alone.)
pub proof fn lemma_mangle_injective(a: Seq<NormField>, b: Seq<NormField>)
    requires
        spec_mangled(a) == spec_mangled(b),
    ensures
        a.len() == b.len(),
        forall|i: int| 0 <= i < a.len() ==> spec_same_ty(#[trigger] a[i].ty, b[i].ty),
    decreases a.len(),
{
    let fa = a.map_values(|nf: NormField| spec_mangle_token(nf.ty));
    let fb = b.map_values(|nf: NormField| spec_mangle_token(nf.ty));
    if a.len() == 0 {
        if b.len() > 0 {
            lemma_token_head(b[0].ty);
            assert(spec_mangled(b) == fb[0] + spec_concat(fb.drop_first()));
            assert(spec_mangled(b).len() > 0);
            assert(false);
        }
    } else if b.len() == 0 {
        lemma_token_head(a[0].ty);
        assert(spec_mangled(a) == fa[0] + spec_concat(fa.drop_first()));
        assert(spec_mangled(a).len() > 0);
        assert(false);
    } else {
        lemma_token_head(a[0].ty);
        lemma_token_head(b[0].ty);
        assert(spec_mangled(a) == fa[0] + spec_concat(fa.drop_first()));
        assert(spec_mangled(b) == fb[0] + spec_concat(fb.drop_first()));
        assert(spec_mangled(a)[0] == fa[0][0]);
        assert(spec_mangled(b)[0] == fb[0][0]);
        match (a[0].ty, b[0].ty) {
            (TypeRef::Custom(n1), TypeRef::Custom(n2)) => {
                assert(fa[0] == "C"@ + spec_dec(n1@.len()) + "_"@ + n1@);
                assert(fb[0] == "C"@ + spec_dec(n2@.len()) + "_"@ + n2@);
                lemma_custom_token_prefix(
                    n1@,
                    n2@,
                    spec_concat(fa.drop_first()),
                    spec_concat(fb.drop_first()),
                );
                assert(spec_same_ty(a[0].ty, b[0].ty));
                assert(fa[0] == fb[0]);
            },
            _ => {
                // The heads agree, so a name token never faces a primitive
                // one; equal primitive heads fix the primitive.
                assert(spec_same_ty(a[0].ty, b[0].ty));
                assert(fa[0] == fb[0]);
            },
        }
        lemma_concat_cancel(fa[0], spec_concat(fa.drop_first()), spec_concat(fb.drop_first()));
        assert(fa.drop_first() =~= a.drop_first().map_values(
            |nf: NormField| spec_mangle_token(nf.ty),
        ));
        assert(fb.drop_first() =~= b.drop_first().map_values(
            |nf: NormField| spec_mangle_token(nf.ty),
        ));
        assert(spec_mangled(a.drop_first()) == spec_mangled(b.drop_first()));
        lemma_mangle_injective(a.drop_first(), b.drop_first());
        assert forall|i: int| 0 <= i < a.len() implies spec_same_ty(
            #[trigger] a[i].ty,
            b[i].ty,
        ) by {
            if i > 0 {
                assert(a.drop_first()[i - 1] == a[i]);
                assert(b.drop_first()[i - 1] == b[i]);
                assert(spec_same_ty(a.drop_first()[i - 1].ty, b.drop_first()[i - 1].ty));
            }
        }
    }
}

/// Tuple ABI symbols are injective in the field-type sequence: two tuple
/// shapes that receive the same ABI symbol (under one prefix) declare the
/// same ordered type sequence, whatever mix of primitive and named field
/// types they use.  Identical sequences receive the identical symbol by
/// construction.
pub proof fn lemma_tuple_symbol_injective(
    s1: SharedStruct,
    s2: SharedStruct,
    prefix: Seq<char>,
    types: TypeDeclarations,
)
    requires
        s1.is_tuple,
        s2.is_tuple,
        s1.name@ == s2.name@,
        spec_ffi_name_string(s1, prefix, types) == spec_ffi_name_string(s2, prefix, types),
    ensures
        spec_normalized(s1.fields).len() == spec_normalized(s2.fields).len(),
        forall|i: int|
            0 <= i < spec_normalized(s1.fields).len() ==> spec_same_ty(
                #[trigger] spec_normalized(s1.fields)[i].ty,
                spec_normalized(s2.fields)[i].ty,
            ),
{
    let head = prefix + "$"@ + s1.name@ + "$"@;
    assert(spec_ffi_name_string(s1, prefix, types) =~= head + spec_mangled(
        spec_normalized(s1.fields),
    ));
    assert(spec_ffi_name_string(s2, prefix, types) =~= head + spec_mangled(
        spec_normalized(s2.fields),
    ));
    lemma_concat_cancel(
        head,
        spec_mangled(spec_normalized(s1.fields)),
        spec_mangled(spec_normalized(s2.fields)),
    );
    lemma_mangle_injective(spec_normalized(s1.fields), spec_normalized(s2.fields));
}

} // verus!
