//! Content preprocessing: every spelling of the redaction tag in markdown
//! content is replaced by one fixed, non-reflowable placeholder block before
//! rendering. Only markdown-mode content is preprocessed; HTML-mode and
//! template-mode content pass through unmodified.

use vstd::prelude::*;
use crate::text::{
    is_prefix_of, is_suffix_of, lemma_replace_all_absent, lemma_replace_all_clean, match_at,
    replace_all, spec_replace_all, text_contains,
};

verus! {

/// The block substituted for each redaction tag: a full-width container
/// holding a placeholder image with explanatory alt text.
pub open spec fn censor_block() -> Seq<char> {
    "<div style=\"width:100% !important; max-width:100% !important; margin-top:0 !important; margin-bottom:0 !important; margin-left:0 !important; margin-right:0 !important; padding:0 !important; overflow:hidden !important; position:relative !important; left:0 !important; right:auto !important; box-sizing:border-box !important; text-align:left !important;\"><img src=\"static/blured.png\" alt=\"CONTENU PREMIUM - Achetez le rapport complet\" style=\"width:100% !important; height:auto !important; display:block !important; margin:0 !important; padding:0 !important; float:none !important;\"></div>"@
}

/// The replacement block as a string slice.
pub fn censor_block_str() -> (r: &'static str)
    ensures
        r@ == censor_block(),
{
    "<div style=\"width:100% !important; max-width:100% !important; margin-top:0 !important; margin-bottom:0 !important; margin-left:0 !important; margin-right:0 !important; padding:0 !important; overflow:hidden !important; position:relative !important; left:0 !important; right:auto !important; box-sizing:border-box !important; text-align:left !important;\"><img src=\"static/blured.png\" alt=\"CONTENU PREMIUM - Achetez le rapport complet\" style=\"width:100% !important; height:auto !important; display:block !important; margin:0 !important; padding:0 !important; float:none !important;\"></div>"
}

/// All recognized spellings of the redaction tag, in the order they are
/// replaced.
pub open spec fn censor_tags() -> Seq<Seq<char>> {
    seq!["{{CENSOR}}"@, "<CENSOR>"@, "{{ CENSOR }}"@, "{{CENSOR }}"@, "{{ CENSOR}}"@]
}

/// `md` with the tag spellings replaced one after the other, each pass
/// substituting every occurrence of one spelling.
pub open spec fn spec_process_censor(md: Seq<char>) -> Seq<char> {
    spec_replace_all(
        spec_replace_all(
            spec_replace_all(
                spec_replace_all(
                    spec_replace_all(md, "{{CENSOR}}"@, censor_block()),
                    "<CENSOR>"@,
                    censor_block(),
                ),
                "{{ CENSOR }}"@,
                censor_block(),
            ),
            "{{CENSOR }}"@,
            censor_block(),
        ),
        "{{ CENSOR}}"@,
        censor_block(),
    )
}

/// Some spelling of the redaction tag occurs in `md`.
pub open spec fn has_censor_tag(md: Seq<char>) -> bool {
    exists|k: int| 0 <= k < censor_tags().len() && text_contains(md, censor_tags()[k])
}

/// Replace every occurrence of every redaction tag spelling in markdown
/// content by the fixed placeholder block.
pub fn process_censor(markdown: &str) -> (r: String)
    ensures
        r@ == spec_process_censor(markdown@),
{
    proof {
        reveal_strlit("{{CENSOR}}");
        reveal_strlit("<CENSOR>");
        reveal_strlit("{{ CENSOR }}");
        reveal_strlit("{{CENSOR }}");
        reveal_strlit("{{ CENSOR}}");
    }
    let block = censor_block_str();
    let r1 = replace_all(markdown, "{{CENSOR}}", block);
    let r2 = replace_all(r1.as_str(), "<CENSOR>", block);
    let r3 = replace_all(r2.as_str(), "{{ CENSOR }}", block);
    let r4 = replace_all(r3.as_str(), "{{CENSOR }}", block);
    replace_all(r4.as_str(), "{{ CENSOR}}", block)
}

/// A text in which no spelling of the redaction tag occurs is returned
/// unchanged by preprocessing.
pub proof fn lemma_process_censor_untagged(md: Seq<char>)
    requires
        !has_censor_tag(md),
    ensures
        spec_process_censor(md) == md,
{
    assert(!text_contains(md, "{{CENSOR}}"@)) by {
        assert(censor_tags()[0] == "{{CENSOR}}"@);
    }
    assert(!text_contains(md, "<CENSOR>"@)) by {
        assert(censor_tags()[1] == "<CENSOR>"@);
    }
    assert(!text_contains(md, "{{ CENSOR }}"@)) by {
        assert(censor_tags()[2] == "{{ CENSOR }}"@);
    }
    assert(!text_contains(md, "{{CENSOR }}"@)) by {
        assert(censor_tags()[3] == "{{CENSOR }}"@);
    }
    assert(!text_contains(md, "{{ CENSOR}}"@)) by {
        assert(censor_tags()[4] == "{{ CENSOR}}"@);
    }
    lemma_replace_all_absent(md, "{{CENSOR}}"@, censor_block());
    lemma_replace_all_absent(md, "<CENSOR>"@, censor_block());
    lemma_replace_all_absent(md, "{{ CENSOR }}"@, censor_block());
    lemma_replace_all_absent(md, "{{CENSOR }}"@, censor_block());
    lemma_replace_all_absent(md, "{{ CENSOR}}"@, censor_block());
}

/// The character shape that keeps a tag spelling out of the replacement
/// block and off its boundaries: the tag starts with `{` (the block holds
/// none) or with `<C` (in the block, `<` is never followed by `C`); the tag
/// has no `<` past its start, so no tag suffix can begin the block; and the
/// tag has no `>` before its end, so no tag prefix can end the block.
proof fn lemma_block_excludes_tag(t: Seq<char>)
    requires
        2 <= t.len() <= 586,
        t[0] == '{' || (t[0] == '<' && t[1] == 'C'),
        forall|k: int| 1 <= k < t.len() ==> t[k] != '<',
        forall|k: int| 0 <= k < t.len() - 1 ==> t[k] != '>',
    ensures
        t.len() <= censor_block().len(),
        !text_contains(censor_block(), t),
        forall|k: int| 0 < k < t.len() ==> !is_prefix_of(#[trigger] t.skip(k), censor_block()),
        forall|k: int| 0 < k < t.len() ==> !is_suffix_of(#[trigger] t.take(k), censor_block()),
{
    reveal_strlit(
        "<div style=\"width:100% !important; max-width:100% !important; margin-top:0 !important; margin-bottom:0 !important; margin-left:0 !important; margin-right:0 !important; padding:0 !important; overflow:hidden !important; position:relative !important; left:0 !important; right:auto !important; box-sizing:border-box !important; text-align:left !important;\"><img src=\"static/blured.png\" alt=\"CONTENU PREMIUM - Achetez le rapport complet\" style=\"width:100% !important; height:auto !important; display:block !important; margin:0 !important; padding:0 !important; float:none !important;\"></div>",
    );
    let b = censor_block();
    assert(b.len() == 586);
    assert(b[0] == '<');
    assert(b[585] == '>');
    assert(forall|i: int| 0 <= i < b.len() ==> b[i] != '{');
    assert(forall|i: int| 0 <= i < b.len() - 1 && #[trigger] b[i] == '<' ==> b[i + 1] != 'C');
    assert forall|i: int| !match_at(b, t, i) by {
        if match_at(b, t, i) {
            assert(b.subrange(i, i + t.len() as int)[0] == t[0]);
            assert(b[i] == t[0]);
            assert(b.subrange(i, i + t.len() as int)[1] == t[1]);
            assert(b[i + 1] == t[1]);
        }
    }
    assert forall|k: int| 0 < k < t.len() implies !is_prefix_of(t.skip(k), b) by {
        if is_prefix_of(t.skip(k), b) {
            assert(b.take(t.len() - k)[0] == t.skip(k)[0]);
            assert(b[0] == t[k]);
        }
    }
    assert forall|k: int| 0 < k < t.len() implies !is_suffix_of(t.take(k), b) by {
        if is_suffix_of(t.take(k), b) {
            assert(b.skip(b.len() - k)[k - 1] == t.take(k)[k - 1]);
            assert(b[b.len() - 1] == t[k - 1]);
        }
    }
}

/// The preprocessed output contains no spelling of the redaction tag: each
/// pass removes every occurrence of its own spelling, and neither the
/// replacement block nor any boundary it creates can form a tag.
pub proof fn lemma_process_censor_output_untagged(md: Seq<char>)
    ensures
        !has_censor_tag(spec_process_censor(md)),
{
    reveal_strlit("{{CENSOR}}");
    reveal_strlit("<CENSOR>");
    reveal_strlit("{{ CENSOR }}");
    reveal_strlit("{{CENSOR }}");
    reveal_strlit("{{ CENSOR}}");
    let b = censor_block();
    let t1 = "{{CENSOR}}"@;
    let t2 = "<CENSOR>"@;
    let t3 = "{{ CENSOR }}"@;
    let t4 = "{{CENSOR }}"@;
    let t5 = "{{ CENSOR}}"@;
    lemma_block_excludes_tag(t1);
    lemma_block_excludes_tag(t2);
    lemma_block_excludes_tag(t3);
    lemma_block_excludes_tag(t4);
    lemma_block_excludes_tag(t5);
    let r1 = spec_replace_all(md, t1, b);
    let r2 = spec_replace_all(r1, t2, b);
    let r3 = spec_replace_all(r2, t3, b);
    let r4 = spec_replace_all(r3, t4, b);
    let r5 = spec_replace_all(r4, t5, b);
    lemma_replace_all_clean(md, t1, b, t1);
    lemma_replace_all_clean(r1, t2, b, t2);
    lemma_replace_all_clean(r1, t2, b, t1);
    lemma_replace_all_clean(r2, t3, b, t3);
    lemma_replace_all_clean(r2, t3, b, t1);
    lemma_replace_all_clean(r2, t3, b, t2);
    lemma_replace_all_clean(r3, t4, b, t4);
    lemma_replace_all_clean(r3, t4, b, t1);
    lemma_replace_all_clean(r3, t4, b, t2);
    lemma_replace_all_clean(r3, t4, b, t3);
    lemma_replace_all_clean(r4, t5, b, t5);
    lemma_replace_all_clean(r4, t5, b, t1);
    lemma_replace_all_clean(r4, t5, b, t2);
    lemma_replace_all_clean(r4, t5, b, t3);
    lemma_replace_all_clean(r4, t5, b, t4);
    assert(spec_process_censor(md) == r5);
    assert forall|k: int|
        0 <= k < censor_tags().len() implies !text_contains(r5, censor_tags()[k]) by {
        if k == 0 {
            assert(censor_tags()[k] == t1);
        } else if k == 1 {
            assert(censor_tags()[k] == t2);
        } else if k == 2 {
            assert(censor_tags()[k] == t3);
        } else if k == 3 {
            assert(censor_tags()[k] == t4);
        } else {
            assert(censor_tags()[k] == t5);
        }
    }
}

/// Preprocessing is idempotent: its output contains no tag spelling, so
/// running it again returns the output unchanged.
pub proof fn lemma_process_censor_idempotent(md: Seq<char>)
    ensures
        spec_process_censor(spec_process_censor(md)) == spec_process_censor(md),
{
    lemma_process_censor_output_untagged(md);
    lemma_process_censor_untagged(spec_process_censor(md));
}

} // verus!
