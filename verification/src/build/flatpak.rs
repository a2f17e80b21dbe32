//! The Flatpak builder: its settings and the command lines of
//! `flatpak-builder` and `flatpak build-bundle`.
use crate::build::args::{flag_pairs, push_arg, push_pairs, push_string};
use crate::text::{append_chars, chars_of, extend_strings, string_of, strings_view};
use vstd::prelude::*;

verus! {

/// What a Flatpak build made.
pub enum FlatpakArtifact {
    /// An application in the output repository, by its id.
    Ref(String),
    /// A bundle file, by its path.
    Bundle(String),
}

impl FlatpakArtifact {
    /// How the artifact is shown: `ref <id>` or `bundle <path>`.
    pub fn describe(&self) -> (r: String)
        ensures
            r@ == match self {
                FlatpakArtifact::Ref(id) => "ref "@ + id@,
                FlatpakArtifact::Bundle(p) => "bundle "@ + p@,
            },
    {
        match self {
            FlatpakArtifact::Ref(id) => {
                let mut v = chars_of("ref ");
                append_chars(&mut v, &chars_of(id.as_str()));
                string_of(&v)
            },
            FlatpakArtifact::Bundle(p) => {
                let mut v = chars_of("bundle ");
                append_chars(&mut v, &chars_of(p.as_str()));
                string_of(&v)
            },
        }
    }
}

/// What a Flatpak builder holds.
pub struct FlatpakView {
    pub output_dir: Seq<char>,
    pub output_repo: Seq<char>,
    pub bundles_dir: Seq<char>,
    pub extra_sources: Seq<Seq<char>>,
    pub extra_sources_urls: Seq<Seq<char>>,
    pub extra_args: Seq<Seq<char>>,
}

/// The Flatpak builder.
pub struct FlatpakBuilder {
    /// The output directory for the flatpak build
    pub output_dir: String,
    /// The output flatpak repository
    pub output_repo: String,
    /// The bundles directory
    pub bundles_dir: String,
    /// Extra sources as paths
    pub extra_sources: Vec<String>,
    /// Extra sources as URLs
    pub extra_sources_urls: Vec<String>,
    /// extra arguments to pass to flatpak-builder
    pub extra_args: Vec<String>,
}

impl View for FlatpakBuilder {
    type V = FlatpakView;

    open spec fn view(&self) -> FlatpakView {
        FlatpakView {
            output_dir: self.output_dir@,
            output_repo: self.output_repo@,
            bundles_dir: self.bundles_dir@,
            extra_sources: strings_view(self.extra_sources),
            extra_sources_urls: strings_view(self.extra_sources_urls),
            extra_args: strings_view(self.extra_args),
        }
    }
}

/// The arguments of `flatpak-builder` that build `manifest` in `build_dir`
/// into the repository `repo`.
pub open spec fn flatpak_build_args(f: FlatpakView, build_dir: Seq<char>, manifest: Seq<char>, repo: Seq<char>) -> Seq<Seq<char>> {
    seq![build_dir, manifest, "--force-clean"@, "--repo"@, repo] + flag_pairs("--extra-sources"@, f.extra_sources)
        + flag_pairs("--extra-sources-url"@, f.extra_sources_urls) + f.extra_args
}

impl FlatpakBuilder {
    /// A builder with the given directories and nothing extra.
    pub fn new(output_dir: String, output_repo: String, bundles_dir: String) -> (b: FlatpakBuilder)
        ensures
            b@ == (FlatpakView {
                output_dir: output_dir@,
                output_repo: output_repo@,
                bundles_dir: bundles_dir@,
                extra_sources: seq![],
                extra_sources_urls: seq![],
                extra_args: seq![],
            }),
    {
        let b = FlatpakBuilder {
            output_dir,
            output_repo,
            bundles_dir,
            extra_sources: Vec::new(),
            extra_sources_urls: Vec::new(),
            extra_args: Vec::new(),
        };
        assert(strings_view(b.extra_sources) =~= Seq::<Seq<char>>::empty());
        assert(strings_view(b.extra_sources_urls) =~= Seq::<Seq<char>>::empty());
        assert(strings_view(b.extra_args) =~= Seq::<Seq<char>>::empty());
        b
    }

    /// Adds an extra source directory.
    pub fn add_extra_source(&mut self, source: String)
        ensures
            final(self)@ == (FlatpakView { extra_sources: old(self)@.extra_sources.push(source@), ..old(self)@ }),
    {
        let ghost before = strings_view(self.extra_sources);
        let ghost sv = source@;
        self.extra_sources.push(source);
        assert(strings_view(self.extra_sources) =~= before.push(sv));
    }

    /// Adds extra source directories, in order.
    pub fn extra_sources_iter(&mut self, iter: Vec<String>)
        ensures
            final(self)@ == (FlatpakView { extra_sources: old(self)@.extra_sources + strings_view(iter), ..old(self)@ }),
    {
        extend_strings(&mut self.extra_sources, &iter);
    }

    /// Adds extra arguments, in order.
    pub fn extra_args_iter(&mut self, iter: Vec<String>)
        ensures
            final(self)@ == (FlatpakView { extra_args: old(self)@.extra_args + strings_view(iter), ..old(self)@ }),
    {
        extend_strings(&mut self.extra_args, &iter);
    }

    /// Adds an extra argument.
    pub fn add_extra_args(&mut self, arg: String)
        ensures
            final(self)@ == (FlatpakView { extra_args: old(self)@.extra_args.push(arg@), ..old(self)@ }),
    {
        let ghost before = strings_view(self.extra_args);
        let ghost av = arg@;
        self.extra_args.push(arg);
        assert(strings_view(self.extra_args) =~= before.push(av));
    }

    /// Adds an extra source URL.
    pub fn add_extra_source_url(&mut self, source: String)
        ensures
            final(self)@ == (FlatpakView { extra_sources_urls: old(self)@.extra_sources_urls.push(source@), ..old(self)@ }),
    {
        let ghost before = strings_view(self.extra_sources_urls);
        let ghost sv = source@;
        self.extra_sources_urls.push(source);
        assert(strings_view(self.extra_sources_urls) =~= before.push(sv));
    }

    /// Adds extra source URLs, in order.
    pub fn extra_sources_urls_iter(&mut self, iter: Vec<String>)
        ensures
            final(self)@ == (FlatpakView {
                extra_sources_urls: old(self)@.extra_sources_urls + strings_view(iter),
                ..old(self)@
            }),
    {
        extend_strings(&mut self.extra_sources_urls, &iter);
    }

    /// The arguments of `flatpak-builder` for building `manifest` in
    /// `build_dir` into the repository at `repo`.
    pub fn build_args(&self, build_dir: &str, manifest: &str, repo: &str) -> (r: Vec<String>)
        ensures
            strings_view(r) == flatpak_build_args(self@, build_dir@, manifest@, repo@),
    {
        let mut out: Vec<String> = Vec::new();
        assert(strings_view(out) =~= Seq::<Seq<char>>::empty());
        push_arg(&mut out, build_dir);
        push_arg(&mut out, manifest);
        push_arg(&mut out, "--force-clean");
        push_arg(&mut out, "--repo");
        push_arg(&mut out, repo);
        push_pairs(&mut out, "--extra-sources", &self.extra_sources);
        push_pairs(&mut out, "--extra-sources-url", &self.extra_sources_urls);
        extend_strings(&mut out, &self.extra_args);
        assert(strings_view(out) =~= flatpak_build_args(self@, build_dir@, manifest@, repo@));
        out
    }

    /// The arguments of `flatpak` that bundle `app_id` from the repository
    /// at `repo` into `bundle_path`.
    pub fn bundle_args(&self, repo: &str, bundle_path: &str, app_id: &str) -> (r: Vec<String>)
        ensures
            strings_view(r) == seq!["build-bundle"@, repo@, bundle_path@, app_id@],
    {
        let mut out: Vec<String> = Vec::new();
        assert(strings_view(out) =~= Seq::<Seq<char>>::empty());
        push_arg(&mut out, "build-bundle");
        push_arg(&mut out, repo);
        push_arg(&mut out, bundle_path);
        push_arg(&mut out, app_id);
        assert(strings_view(out) =~= seq!["build-bundle"@, repo@, bundle_path@, app_id@]);
        out
    }

    /// The file name of the bundle of `app_id`: `<app_id>.flatpak`.
    pub fn bundle_file_name(app_id: &str) -> (r: String)
        ensures
            r@ == app_id@ + ".flatpak"@,
    {
        let mut v = chars_of(app_id);
        append_chars(&mut v, &chars_of(".flatpak"));
        string_of(&v)
    }
}

} // verus!
