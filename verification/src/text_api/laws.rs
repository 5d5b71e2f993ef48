//! Laws the compiler obeys, stated and proved once for every input.

use vstd::prelude::*;

use crate::text_api::request::Role;
use crate::text_api::xml_dsl::{attr_lookup, draft_of, role_of, spec_lookup, PromptView};

verus! {

/// Lookup by name returns the first prompt carrying that name, and succeeds
/// exactly when some prompt carries it; lookup enforces no uniqueness.
pub proof fn lemma_lookup_semantics(ps: Seq<PromptView>, name: Seq<char>)
    ensures
        (spec_lookup(ps, name) is Some) <==> (exists|i: int|
            0 <= i < ps.len() && ps[i].name == Some(name)),
        spec_lookup(ps, name) matches Some(p) ==> exists|i: int|
            0 <= i < ps.len() && ps[i] == p && ps[i].name == Some(name) && (forall|k: int|
                0 <= k < i ==> ps[k].name != Some(name)),
    decreases ps.len(),
{
    if ps.len() > 0 {
        lemma_lookup_semantics(ps.drop_first(), name);
        if ps[0].name == Some(name) {
            assert(ps[0].name == Some(name) && 0 < ps.len());
        } else {
            match spec_lookup(ps.drop_first(), name) {
                Some(p) => {
                    let i = choose|i: int|
                        0 <= i < ps.drop_first().len() && ps.drop_first()[i] == p
                            && ps.drop_first()[i].name == Some(name) && (forall|k: int|
                            0 <= k < i ==> ps.drop_first()[k].name != Some(name));
                    assert(ps[i + 1] == ps.drop_first()[i]);
                    assert forall|k: int| 0 <= k < i + 1 implies ps[k].name != Some(name) by {
                        if k > 0 {
                            assert(ps.drop_first()[k - 1] == ps[k]);
                        }
                    }
                },
                None => {
                    assert forall|i: int| 0 <= i < ps.len() implies ps[i].name != Some(name) by {
                        if i > 0 {
                            assert(ps.drop_first()[i - 1] == ps[i]);
                        }
                    }
                },
            }
            if exists|i: int| 0 <= i < ps.len() && ps[i].name == Some(name) {
                let i = choose|i: int| 0 <= i < ps.len() && ps[i].name == Some(name);
                assert(i > 0);
                assert(ps.drop_first()[i - 1].name == Some(name));
            }
        }
    }
}

/// Attribute coercion is independent per attribute: each field of the draft is
/// a function of its own attribute's value alone, so one malformed attribute
/// never invalidates another.
pub proof fn lemma_attr_coercion_independent(
    a1: Seq<(Seq<char>, Seq<char>)>,
    a2: Seq<(Seq<char>, Seq<char>)>,
    b1: Seq<char>,
    b2: Seq<char>,
)
    ensures
        attr_lookup(a1, "model"@) == attr_lookup(a2, "model"@) ==> draft_of(a1, b1).model
            == draft_of(a2, b2).model,
        attr_lookup(a1, "stream"@) == attr_lookup(a2, "stream"@) ==> draft_of(a1, b1).stream
            == draft_of(a2, b2).stream,
        attr_lookup(a1, "temperature"@) == attr_lookup(a2, "temperature"@) ==> draft_of(
            a1,
            b1,
        ).temperature == draft_of(a2, b2).temperature,
        attr_lookup(a1, "n"@) == attr_lookup(a2, "n"@) ==> draft_of(a1, b1).n == draft_of(
            a2,
            b2,
        ).n,
        attr_lookup(a1, "max-tokens"@) == attr_lookup(a2, "max-tokens"@) ==> draft_of(
            a1,
            b1,
        ).max_tokens == draft_of(a2, b2).max_tokens,
        attr_lookup(a1, "top-p"@) == attr_lookup(a2, "top-p"@) ==> draft_of(a1, b1).top_p
            == draft_of(a2, b2).top_p,
        attr_lookup(a1, "frequency-penalty"@) == attr_lookup(a2, "frequency-penalty"@)
            ==> draft_of(a1, b1).frequency_penalty == draft_of(a2, b2).frequency_penalty,
        attr_lookup(a1, "presence-penalty"@) == attr_lookup(a2, "presence-penalty"@) ==> draft_of(
            a1,
            b1,
        ).presence_penalty == draft_of(a2, b2).presence_penalty,
        attr_lookup(a1, "logprobs"@) == attr_lookup(a2, "logprobs"@) ==> draft_of(
            a1,
            b1,
        ).logprobs == draft_of(a2, b2).logprobs,
        attr_lookup(a1, "top-logprobs"@) == attr_lookup(a2, "top-logprobs"@) ==> draft_of(
            a1,
            b1,
        ).top_logprobs == draft_of(a2, b2).top_logprobs,
        attr_lookup(a1, "response-format"@) == attr_lookup(a2, "response-format"@) ==> draft_of(
            a1,
            b1,
        ).response_format == draft_of(a2, b2).response_format,
{
}

/// An unrecognized or absent `role` value compiles to `User`; only the two
/// recognized spellings choose another speaker.
pub proof fn lemma_unknown_role_is_user(v: Seq<char>)
    ensures
        role_of(None) == Role::User,
        v != "system"@ && v != "assistant"@ ==> role_of(Some(v)) == Role::User,
        role_of(Some("user"@)) == Role::User,
        role_of(Some("system"@)) == Role::System,
        role_of(Some("assistant"@)) == Role::Assistant,
{
    reveal_strlit("user");
    reveal_strlit("system");
    reveal_strlit("assistant");
    assert("user"@.len() == 4);
    assert("system"@.len() == 6);
    assert("assistant"@.len() == 9);
    assert("user"@ != "system"@);
    assert("user"@ != "assistant"@);
    assert("assistant"@ != "system"@);
}

} // verus!
