use vstd::prelude::*;
use vstd::string::{StrSliceExecFns, StringExecFns};

use crate::config::{texts, Expander, ExpanderView};
use crate::error::ExpandError;
use crate::text::{ends_with, has_prefix, has_suffix, starts_with};

verus! {

/// The words of `s`, separated by single spaces.
pub open spec fn joined(s: Seq<Seq<char>>) -> Seq<char>
    decreases s.len(),
{
    if s.len() == 0 {
        seq![]
    } else if s.len() == 1 {
        s[0]
    } else {
        joined(s.drop_last()) + " "@ + s.last()
    }
}

/// Each unstable flag preceded by its own `-Z`, in order.
pub open spec fn flag_pairs(s: Seq<Seq<char>>) -> Seq<Seq<char>>
    decreases s.len(),
{
    if s.len() == 0 {
        seq![]
    } else {
        flag_pairs(s.drop_last()) + seq!["-Z"@, s.last()]
    }
}

/// The profile, release and feature arguments of the build invocation.
pub open spec fn option_args(e: ExpanderView) -> Seq<Seq<char>> {
    seq![
        "rustc"@,
        if e.tests {
            "--profile=test"@
        } else {
            "--profile=check"@
        },
    ] + (if e.release {
        seq!["--release"@]
    } else {
        seq![]
    }) + (if e.features.len() > 0 {
        seq!["--features"@, joined(e.features)]
    } else {
        seq![]
    }) + (if e.all_features {
        seq!["--all-features"@]
    } else {
        seq![]
    }) + (if e.no_default_features {
        seq!["--no-default-features"@]
    } else {
        seq![]
    })
}

/// The arguments that direct the compiler to write expanded source to `outfile`.
pub open spec fn output_args(outfile: Seq<char>) -> Seq<Seq<char>> {
    seq!["--"@, "-o"@, outfile, "-Zunstable-options"@, "--pretty=expanded"@]
}

/// The arguments of the build invocation that writes the expanded library
/// of the package at `manifest` to `outfile`.
pub open spec fn build_args_spec(e: ExpanderView, manifest: Seq<char>, outfile: Seq<char>) -> Seq<
    Seq<char>,
> {
    option_args(e) + seq!["--lib"@, "--manifest-path"@, manifest] + flag_pairs(e.unstable_flags)
        + output_args(outfile)
}

fn push_text(v: &mut Vec<String>, s: &str)
    ensures
        texts(final(v)@) == texts(old(v)@).push(s@),
{
    v.push(String::from_str(s));
    assert(texts(v@) =~= texts(old(v)@).push(s@));
}

fn join_words(words: &Vec<String>) -> (r: String)
    ensures
        r@ == joined(texts(words@)),
{
    let mut r = String::new();
    let mut i: usize = 0;
    while i < words.len()
        invariant
            i <= words@.len(),
            r@ == joined(texts(words@).subrange(0, i as int)),
        decreases words@.len() - i,
    {
        let ghost prev = texts(words@).subrange(0, i as int);
        let ghost next = texts(words@).subrange(0, i + 1);
        assert(next.drop_last() =~= prev);
        if i > 0 {
            r.append(" ");
        } else {
            assert(r@ =~= seq![]);
        }
        r.append(words[i].as_str());
        i = i + 1;
        proof {
            if i == 1 {
                assert(r@ =~= next[0]);
            } else {
                assert(r@ =~= joined(prev) + " "@ + next.last());
            }
        }
    }
    assert(texts(words@).subrange(0, i as int) =~= texts(words@));
    r
}

impl Expander {
    fn option_args(&self) -> (r: Vec<String>)
        ensures
            texts(r@) == option_args(self@),
    {
        let mut args: Vec<String> = Vec::new();
        push_text(&mut args, "rustc");
        if self.tests {
            push_text(&mut args, "--profile=test");
        } else {
            push_text(&mut args, "--profile=check");
        }
        let ghost a1 = texts(args@);
        if self.release {
            push_text(&mut args, "--release");
        }
        let ghost a2 = texts(args@);
        assert(a2 =~= a1 + (if self@.release { seq!["--release"@] } else { seq![] }));
        if self.features.len() > 0 {
            push_text(&mut args, "--features");
            let j = join_words(&self.features);
            push_text(&mut args, j.as_str());
        }
        let ghost a3 = texts(args@);
        assert(a3 =~= a2 + (if self@.features.len() > 0 {
            seq!["--features"@, joined(self@.features)]
        } else {
            seq![]
        }));
        if self.all_features {
            push_text(&mut args, "--all-features");
        }
        let ghost a4 = texts(args@);
        assert(a4 =~= a3 + (if self@.all_features { seq!["--all-features"@] } else { seq![] }));
        if self.no_default_features {
            push_text(&mut args, "--no-default-features");
        }
        assert(texts(args@) =~= a4 + (if self@.no_default_features {
            seq!["--no-default-features"@]
        } else {
            seq![]
        }));
        args
    }

    fn push_flag_pairs(&self, args: &mut Vec<String>)
        ensures
            texts(final(args)@) == texts(old(args)@) + flag_pairs(self@.unstable_flags),
    {
        let ghost a0 = texts(args@);
        let mut i: usize = 0;
        assert(texts(self.unstable_flags@).subrange(0, 0) =~= seq![]);
        assert(a0 =~= a0 + flag_pairs(seq![]));
        while i < self.unstable_flags.len()
            invariant
                i <= self.unstable_flags@.len(),
                texts(args@) == a0 + flag_pairs(texts(self.unstable_flags@).subrange(0, i as int)),
            decreases self.unstable_flags@.len() - i,
        {
            let ghost prev = texts(self.unstable_flags@).subrange(0, i as int);
            let ghost next = texts(self.unstable_flags@).subrange(0, i + 1);
            assert(next.drop_last() =~= prev);
            push_text(args, "-Z");
            push_text(args, self.unstable_flags[i].as_str());
            i = i + 1;
            assert(texts(args@) =~= a0 + flag_pairs(next));
        }
        assert(texts(self.unstable_flags@).subrange(0, i as int) =~= texts(self.unstable_flags@));
    }

    /// The arguments of the build invocation for the package at
    /// `manifest_path`, with the expanded library written to `outfile`.
    pub fn build_args(&self, manifest_path: &str, outfile: &str) -> (r: Vec<String>)
        ensures
            texts(r@) == build_args_spec(self@, manifest_path@, outfile@),
    {
        let mut args = self.option_args();
        let ghost a1 = texts(args@);
        push_text(&mut args, "--lib");
        push_text(&mut args, "--manifest-path");
        push_text(&mut args, manifest_path);
        let ghost a2 = texts(args@);
        assert(a2 =~= a1 + seq!["--lib"@, "--manifest-path"@, manifest_path@]);
        self.push_flag_pairs(&mut args);
        let ghost a3 = texts(args@);
        push_text(&mut args, "--");
        push_text(&mut args, "-o");
        push_text(&mut args, outfile);
        push_text(&mut args, "-Zunstable-options");
        push_text(&mut args, "--pretty=expanded");
        assert(texts(args@) =~= a3 + output_args(outfile@));
        args
    }
}

/// What the build tool left behind: its error stream, and the contents of
/// the output file (or why it could not be read).
pub struct BuildOutput {
    pub stderr: String,
    pub content: Result<String, String>,
}

/// The start of the error stream on a manifest that lacks workspace context.
pub open spec fn manifest_failure_prefix() -> Seq<char> {
    "error: failed to parse manifest at"@
}

/// The end of the error stream on a manifest that lacks workspace context.
pub open spec fn missing_workspace_suffix() -> Seq<char> {
    "virtual manifests must be configured with [workspace]"@
}

/// Whether an error stream, and the same stream without trailing
/// whitespace, carry the signature of a manifest that lacks workspace context.
pub open spec fn missing_workspace_signature(stderr: Seq<char>, trimmed: Seq<char>) -> bool {
    has_prefix(stderr, manifest_failure_prefix()) && has_suffix(trimmed, missing_workspace_suffix())
}

/// How a finished build invocation is classified.
pub open spec fn build_outcome(
    stderr: Seq<char>,
    trimmed: Seq<char>,
    content: Result<String, String>,
) -> Result<String, ExpandError> {
    if missing_workspace_signature(stderr, trimmed) {
        Err(ExpandError::MissingWorkspace)
    } else {
        match content {
            Err(m) => Err(ExpandError::IoError(m)),
            Ok(c) => if c@.len() == 0 {
                Err(ExpandError::EmptyOutput)
            } else {
                Ok(c)
            },
        }
    }
}

/// The text with trailing whitespace removed, as `str::trim_end` gives it.
pub uninterp spec fn trim_end_of(s: Seq<char>) -> Seq<char>;

/// Relies on `str::trim_end`: the text without its trailing whitespace,
/// which is a prefix of the text.
#[verifier::external_body]
fn trim_end(s: &str) -> (r: &str)
    ensures
        r@ == trim_end_of(s@),
        has_prefix(s@, r@),
{
    s.trim_end()
}

/// Whether `stderr`, whose trailing whitespace is removed in `trimmed`,
/// carries the missing-workspace signature.
pub fn matches_missing_workspace(stderr: &str, trimmed: &str) -> (r: bool)
    ensures
        r == missing_workspace_signature(stderr@, trimmed@),
{
    starts_with(stderr, "error: failed to parse manifest at") && ends_with(
        trimmed,
        "virtual manifests must be configured with [workspace]",
    )
}

/// Whether an error stream carries the missing-workspace signature.
pub fn is_missing_workspace(stderr: &str) -> (r: bool)
    ensures
        r == missing_workspace_signature(stderr@, trim_end_of(stderr@)),
{
    let trimmed = trim_end(stderr);
    matches_missing_workspace(stderr, trimmed)
}

/// Classifies a finished build invocation, given its error stream without
/// trailing whitespace: the signature of a manifest without workspace
/// context wins over the output file; then an unreadable or empty file
/// fails; otherwise the file's contents are the expanded source.
pub fn classify_trimmed(out: BuildOutput, trimmed: &str) -> (r: Result<String, ExpandError>)
    ensures
        r == build_outcome(out.stderr@, trimmed@, out.content),
{
    if matches_missing_workspace(out.stderr.as_str(), trimmed) {
        return Err(ExpandError::MissingWorkspace);
    }
    match out.content {
        Err(m) => Err(ExpandError::IoError(m)),
        Ok(c) => {
            if c.as_str().unicode_len() == 0 {
                Err(ExpandError::EmptyOutput)
            } else {
                Ok(c)
            }
        },
    }
}

/// Classifies a finished build invocation.
pub fn classify(out: BuildOutput) -> (r: Result<String, ExpandError>)
    ensures
        r == build_outcome(out.stderr@, trim_end_of(out.stderr@), out.content),
{
    let trimmed = trim_end(out.stderr.as_str()).to_string();
    classify_trimmed(out, trimmed.as_str())
}

/// The build tool to run: the override when one is given, else `cargo`.
pub fn cargo_binary(tool_override: Option<String>) -> (r: String)
    ensures
        r@ == match tool_override {
            Some(t) => t@,
            None => "cargo"@,
        },
{
    match tool_override {
        Some(t) => t,
        None => String::from_str("cargo"),
    }
}

impl Expander {
    /// The manifest that the dependency graph is resolved from: the one
    /// configured, else `Cargo.toml` in the enclosing project's directory.
    pub fn metadata_manifest(&self, project_dir: Option<String>) -> (r: String)
        requires
            self.manifest_path.is_some() || project_dir.is_some(),
        ensures
            r@ == match self.manifest_path {
                Some(m) => m@,
                None => project_dir.unwrap()@ + "/Cargo.toml"@,
            },
    {
        match &self.manifest_path {
            Some(m) => m.clone(),
            None => project_dir.unwrap().concat("/Cargo.toml"),
        }
    }
}

} // verus!
