//! Expansion of the `~/.config/` shorthand at the start of a configured path.
use crate::text::chars_of;
use vstd::prelude::*;

verus! {

/// The shorthand that stands for the configuration directory: `~/.config/`.
pub open spec fn config_shorthand() -> Seq<char> {
    seq!['~', '/', '.', 'c', 'o', 'n', 'f', 'i', 'g', '/']
}

/// The directory below the home directory that the shorthand stands for.
pub open spec fn config_dir_name() -> Seq<char> {
    seq!['.', 'c', 'o', 'n', 'f', 'i', 'g']
}

/// Whether `text` begins with `prefix`.
pub open spec fn starts_with(text: Seq<char>, prefix: Seq<char>) -> bool {
    text.len() >= prefix.len() && text.take(prefix.len() as int) == prefix
}

/// `rel` below the directory `base`. An absolute `rel` stands for itself;
/// otherwise one `/` separates the two unless `base` is empty or ends in one.
pub open spec fn joined(base: Seq<char>, rel: Seq<char>) -> Seq<char> {
    if rel.len() > 0 && rel[0] == '/' {
        rel
    } else if base.len() == 0 || base.last() == '/' {
        base + rel
    } else {
        base + seq!['/'] + rel
    }
}

/// The path that `path` stands for, for a user whose home directory is `home`.
/// A path that begins with `~/.config/` stands for what follows the
/// shorthand, taken below `.config` in the home directory; any other path
/// stands for itself, also where it holds the shorthand further on.
pub open spec fn resolved(path: Seq<char>, home: Seq<char>) -> Seq<char> {
    if starts_with(path, config_shorthand()) {
        joined(joined(home, config_dir_name()), path.skip(config_shorthand().len() as int))
    } else {
        path
    }
}

/// A path that does not begin with the shorthand stands for itself.
pub proof fn lemma_other_paths_are_kept(path: Seq<char>, home: Seq<char>)
    requires
        !starts_with(path, config_shorthand()),
    ensures
        resolved(path, home) == path,
{
}

/// Whether `text` begins with `prefix`.
fn begins_with(text: &Vec<char>, prefix: &Vec<char>) -> (yes: bool)
    ensures
        yes == starts_with(text@, prefix@),
{
    if prefix.len() > text.len() {
        return false;
    }
    let mut k: usize = 0;
    while k < prefix.len()
        invariant
            k <= prefix.len() <= text.len(),
            forall|j: int| 0 <= j < k ==> text@[j] == prefix@[j],
        decreases prefix.len() - k,
    {
        if text[k] != prefix[k] {
            proof {
                let head = text@.take(prefix.len() as int);
                assert(head[k as int] != prefix@[k as int]);
            }
            return false;
        }
        k = k + 1;
    }
    assert(text@.take(prefix.len() as int) =~= prefix@);
    true
}

/// `rel` below the directory `base`.
pub fn join(base: &str, rel: &str) -> (out: String)
    ensures
        out@ == joined(base@, rel@),
{
    let base_len = base.unicode_len();
    if rel.unicode_len() > 0 && rel.get_char(0) == '/' {
        return rel.to_owned();
    }
    let mut out = base.to_owned();
    if base_len > 0 && base.get_char(base_len - 1) != '/' {
        proof {
            reveal_strlit("/");
            assert("/"@ =~= seq!['/']);
        }
        out.append("/");
    }
    out.append(rel);
    out
}

/// Resolves `path` for a user whose home directory is `home`: a path that
/// begins with `~/.config/` is taken below `.config` in `home`, any other
/// path is returned as it is.
pub fn get_path(path: &str, home: &str) -> (out: String)
    ensures
        out@ == resolved(path@, home@),
{
    proof {
        reveal_strlit("~/.config/");
        reveal_strlit(".config");
        assert("~/.config/"@ =~= config_shorthand());
        assert(".config"@ =~= config_dir_name());
    }
    let chars = chars_of(path);
    let shorthand = chars_of("~/.config/");
    if begins_with(&chars, &shorthand) {
        let config_home = join(home, ".config");
        let sub_path = path.substring_char(shorthand.len(), chars.len());
        assert(sub_path@ =~= path@.skip(config_shorthand().len() as int));
        join(config_home.as_str(), sub_path)
    } else {
        path.to_owned()
    }
}

} // verus!
