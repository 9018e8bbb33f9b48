//! Which Git tags name releases of the AWS CLI the plugin offers.
use vstd::prelude::*;
use vstd::string::*;
use crate::text::{contains_text, occurs_at, occurs_in, starts_with};

verus! {

/// The Git repository whose tags list the AWS CLI releases.
pub const AWS_CLI_REPOSITORY: &'static str = "https://github.com/aws/aws-cli";

/// Whether `c` may appear in a release tag.
pub open spec fn is_digit_or_dot(c: char) -> bool {
    ('0' <= c && c <= '9') || c == '.'
}

/// Whether a Git tag names a stable release of version 2 of the AWS CLI: it
/// starts with `2.`, names no development, alpha, beta or release-candidate
/// build, and holds only digits and dots.
pub open spec fn spec_is_release_tag(tag: Seq<char>) -> bool {
    &&& "2."@.is_prefix_of(tag)
    &&& !occurs_in("dev"@, tag)
    &&& !occurs_in("alpha"@, tag)
    &&& !occurs_in("beta"@, tag)
    &&& !occurs_in("rc"@, tag)
    &&& forall|i: int| 0 <= i < tag.len() ==> is_digit_or_dot(#[trigger] tag[i])
}

/// The release tags among `tags`, in their order.
pub open spec fn release_tags(tags: Seq<Seq<char>>) -> Seq<Seq<char>>
    decreases tags.len(),
{
    if tags.len() == 0 {
        Seq::empty()
    } else if spec_is_release_tag(tags.last()) {
        release_tags(tags.drop_last()).push(tags.last())
    } else {
        release_tags(tags.drop_last())
    }
}

/// The text of each string of `strings`.
pub open spec fn string_views(strings: Seq<String>) -> Seq<Seq<char>> {
    strings.map_values(|s: String| s@)
}

/// Returns whether every character of `text` is a digit or a dot.
pub fn all_digits_or_dots(text: &str) -> (res: bool)
    ensures
        res == forall|i: int| 0 <= i < text@.len() ==> is_digit_or_dot(#[trigger] text@[i]),
{
    let n = text.unicode_len();
    let mut i: usize = 0;
    while i < n
        invariant
            n == text@.len(),
            i <= n,
            forall|k: int| 0 <= k < i ==> is_digit_or_dot(#[trigger] text@[k]),
        decreases n - i,
    {
        let c = text.get_char(i);
        if !(('0' <= c && c <= '9') || c == '.') {
            return false;
        }
        i = i + 1;
    }
    true
}

/// Returns whether a Git tag names a stable release of version 2.
pub fn is_release_tag(tag: &str) -> (res: bool)
    ensures
        res == spec_is_release_tag(tag@),
{
    starts_with(tag, "2.") && !contains_text(tag, "dev") && !contains_text(tag, "alpha")
        && !contains_text(tag, "beta") && !contains_text(tag, "rc") && all_digits_or_dots(tag)
}

/// Keeps the Git tags that name stable releases of version 2, in their order.
pub fn filter_release_tags(tags: Vec<String>) -> (res: Vec<String>)
    ensures
        string_views(res@) == release_tags(string_views(tags@)),
{
    let mut res: Vec<String> = Vec::new();
    let mut i: usize = 0;
    while i < tags.len()
        invariant
            i <= tags@.len(),
            string_views(res@) == release_tags(string_views(tags@.take(i as int))),
        decreases tags@.len() - i,
    {
        let keep = is_release_tag(tags[i].as_str());
        proof {
            let before = string_views(tags@.take(i as int));
            let after = string_views(tags@.take(i + 1));
            assert(after.drop_last() =~= before);
            assert(after.last() == tags@[i as int]@);
        }
        if keep {
            let ghost old_res = res@;
            res.push(tags[i].clone());
            proof {
                assert(string_views(res@) =~= string_views(old_res).push(tags@[i as int]@));
            }
        }
        i = i + 1;
    }
    proof {
        assert(tags@.take(tags@.len() as int) =~= tags@);
    }
    res
}

/// Whether the requested alias asks for the latest release of version 2.
pub open spec fn spec_is_v2_alias(initial: Seq<char>) -> bool {
    initial == "v2"@ || initial == "2"@
}

/// Returns whether the requested alias or version, as text, asks for the
/// latest release of version 2.
pub fn is_v2_alias(initial: &str) -> (res: bool)
    ensures
        res == spec_is_v2_alias(initial@),
{
    let n = initial.unicode_len();
    proof {
        reveal_strlit("v2");
        reveal_strlit("2");
    }
    if n == 2 {
        let matched = initial.get_char(0) == 'v' && initial.get_char(1) == '2';
        if matched {
            assert(initial@ =~= "v2"@);
        }
        matched
    } else if n == 1 {
        let matched = initial.get_char(0) == '2';
        if matched {
            assert(initial@ =~= "2"@);
        }
        matched
    } else {
        false
    }
}

/// A tag made only of digits and dots names no development, alpha, beta or
/// release-candidate build: a tag is a release tag exactly when it starts
/// with `2.` and holds only digits and dots.
pub proof fn law_release_tag_is_numeric_v2(tag: Seq<char>)
    ensures
        spec_is_release_tag(tag) <==> ("2."@.is_prefix_of(tag) && forall|i: int|
            0 <= i < tag.len() ==> is_digit_or_dot(#[trigger] tag[i])),
{
    reveal_strlit("dev");
    reveal_strlit("alpha");
    reveal_strlit("beta");
    reveal_strlit("rc");
    if forall|i: int| 0 <= i < tag.len() ==> is_digit_or_dot(#[trigger] tag[i]) {
        lemma_no_letter_run(tag, "dev"@);
        lemma_no_letter_run(tag, "alpha"@);
        lemma_no_letter_run(tag, "beta"@);
        lemma_no_letter_run(tag, "rc"@);
    }
}

/// A run that starts with a letter does not occur in digits and dots.
proof fn lemma_no_letter_run(tag: Seq<char>, needle: Seq<char>)
    requires
        forall|i: int| 0 <= i < tag.len() ==> is_digit_or_dot(#[trigger] tag[i]),
        needle.len() > 0,
        !is_digit_or_dot(needle[0]),
    ensures
        !occurs_in(needle, tag),
{
    assert forall|i: int| !#[trigger] occurs_at(needle, tag, i) by {
        if occurs_at(needle, tag, i) {
            assert(tag.subrange(i, i + needle.len())[0] == needle[0]);
            assert(is_digit_or_dot(tag[i]));
        }
    }
}

/// Every tag that the filter keeps names a version 2 release: it starts
/// with `2.` and holds only digits and dots; the kept tags are tags of the
/// input, no more of them than there were.
pub proof fn law_kept_tags_are_v2_releases(tags: Seq<Seq<char>>)
    ensures
        release_tags(tags).len() <= tags.len(),
        forall|i: int|
            0 <= i < release_tags(tags).len() ==> spec_is_release_tag(#[trigger] release_tags(tags)[i])
                && tags.contains(release_tags(tags)[i]),
        forall|i: int|
            0 <= i < release_tags(tags).len() ==> "2."@.is_prefix_of(#[trigger] release_tags(tags)[i]),
    decreases tags.len(),
{
    if tags.len() > 0 {
        law_kept_tags_are_v2_releases(tags.drop_last());
        let rest = release_tags(tags.drop_last());
        assert forall|i: int| 0 <= i < rest.len() implies tags.contains(#[trigger] rest[i]) by {
            let j = choose|j: int| 0 <= j < tags.drop_last().len() && tags.drop_last()[j] == rest[i];
            assert(tags[j] == rest[i]);
        }
        assert(tags[tags.len() - 1] == tags.last());
    }
}

/// Filtering the kept tags again keeps all of them.
pub proof fn law_filter_idempotent(tags: Seq<Seq<char>>)
    ensures
        release_tags(release_tags(tags)) == release_tags(tags),
    decreases tags.len(),
{
    if tags.len() > 0 {
        law_filter_idempotent(tags.drop_last());
        if spec_is_release_tag(tags.last()) {
            let r = release_tags(tags.drop_last()).push(tags.last());
            assert(r.drop_last() =~= release_tags(tags.drop_last()));
        }
    }
}

/// A tag that is not a release tag, inserted anywhere among the tags,
/// leaves the kept tags unchanged.
pub proof fn law_rejected_tag_is_ignored(before: Seq<Seq<char>>, tag: Seq<char>, after: Seq<Seq<char>>)
    requires
        !spec_is_release_tag(tag),
    ensures
        release_tags(before + seq![tag] + after) == release_tags(before + after),
    decreases after.len(),
{
    if after.len() == 0 {
        assert((before + seq![tag] + after).drop_last() =~= before);
        assert(before + after =~= before);
    } else {
        law_rejected_tag_is_ignored(before, tag, after.drop_last());
        assert((before + seq![tag] + after).drop_last() =~= before + seq![tag] + after.drop_last());
        assert((before + after).drop_last() =~= before + after.drop_last());
    }
}

/// A tag is a release tag exactly when it is `2.` followed by any ASCII
/// digits (all ten of them) and dots, stated character by character.
pub proof fn law_release_tag_characters(tag: Seq<char>)
    ensures
        spec_is_release_tag(tag) <==> {
            &&& tag.len() >= 2
            &&& tag[0] == '2'
            &&& tag[1] == '.'
            &&& forall|i: int| 0 <= i < tag.len() ==> ('0' <= #[trigger] tag[i] && tag[i] <= '9')
                || tag[i] == '.'
        },
{
    law_release_tag_is_numeric_v2(tag);
    reveal_strlit("2.");
    assert("2."@ =~= seq!['2', '.']);
    if tag.len() >= 2 && tag[0] == '2' && tag[1] == '.' {
        assert("2."@ =~= tag.subrange(0, 2));
    }
    if "2."@.is_prefix_of(tag) {
        assert(tag.subrange(0, 2)[0] == tag[0]);
        assert(tag.subrange(0, 2)[1] == tag[1]);
    }
}

/// Only the exact texts `v2` and `2` are the version 2 alias: no longer
/// text, such as a full version `2.22.0` or `v2.1`, is taken for it.
pub proof fn law_v2_alias_is_exact(initial: Seq<char>)
    ensures
        spec_is_v2_alias(initial) <==> (initial =~= seq!['v', '2'] || initial =~= seq!['2']),
        spec_is_v2_alias(initial) ==> initial.len() <= 2,
{
    reveal_strlit("v2");
    reveal_strlit("2");
    assert("v2"@ =~= seq!['v', '2']);
    assert("2"@ =~= seq!['2']);
}

} // verus!
