//! Where releases and tracks belong in the library on disk.
//!
//! A place is given as the parts of a path below the library's directory. The
//! parts come from the templates of the settings, with the names in braces
//! replaced.

use crate::error::{Error, ErrorView};
use crate::library::{Context, Settings};
use crate::models::{Release, ReleaseView, Track, TrackView};
use crate::text::{decimal, decimal_text};
use crate::track::format::Format;
use vstd::prelude::*;
use vstd::string::*;

verus! {

/// `text` with every occurrence of `from` replaced by `to`, found from left
/// to right without overlap. An empty `from` occurs nowhere.
pub open spec fn replaced(text: Seq<char>, from: Seq<char>, to: Seq<char>) -> Seq<char>
    decreases text.len(),
{
    if from.len() == 0 || text.len() < from.len() {
        text
    } else if text.subrange(0, from.len() as int) == from {
        to + replaced(text.subrange(from.len() as int, text.len() as int), from, to)
    } else {
        seq![text[0]] + replaced(text.subrange(1, text.len() as int), from, to)
    }
}

/// Calls `str::replace` of std, which replaces all matches of a pattern,
/// found from left to right without overlap. An empty pattern is left out:
/// std matches it between any two characters.
#[verifier::external_body]
fn replace(text: &str, from: &str, to: &str) -> (r: String)
    requires
        from@.len() > 0,
    ensures
        r@ == replaced(text@, from@, to@),
{
    text.replace(from, to)
}

/// A place in the library: the parts of its path below the library's
/// directory, outermost first.
pub type LibraryPath = Vec<String>;

/// The name of the directory of a release by one of its artists.
pub open spec fn release_name(template: Seq<char>, artist: Seq<char>, title: Seq<char>) -> Seq<char> {
    replaced(replaced(template, "{release.artist}"@, artist), "{release.title}"@, title)
}

/// The places of a release: one for each of its artists, in order.
pub open spec fn release_paths(release: ReleaseView, settings: Settings) -> Seq<Seq<Seq<char>>> {
    Seq::new(
        release.artists.len(),
        |i: int| seq![release_name(settings.release_name@, release.artists[i].name, release.title)],
    )
}

/// The error that is reported where the settings were not read.
pub open spec fn no_settings() -> ErrorView {
    ErrorView::Configuration("Could not read settings"@)
}

/// The error that is reported where a release has no place in the library.
pub open spec fn no_release_path() -> ErrorView {
    ErrorView::Precondition(
        "Release does not have a path in the library, most definitely because the release has no artists"@,
    )
}

/// The places of a release, or why it has none.
pub open spec fn release_paths_of(release: ReleaseView, context: Context) -> Result<
    Seq<Seq<Seq<char>>>,
    ErrorView,
> {
    match context.settings {
        Some(settings) => Ok(release_paths(release, settings)),
        None => Err(no_settings()),
    }
}

/// The main place of a release: the first of its places.
pub open spec fn release_path_of(release: ReleaseView, context: Context) -> Result<
    Seq<Seq<char>>,
    ErrorView,
> {
    match release_paths_of(release, context) {
        Ok(paths) => if paths.len() > 0 {
            Ok(paths[0])
        } else {
            Err(no_release_path())
        },
        Err(e) => Err(e),
    }
}

/// The members of `paths` that differ from `main`, in order.
pub open spec fn others(paths: Seq<Seq<Seq<char>>>, main: Seq<Seq<char>>) -> Seq<Seq<Seq<char>>>
    decreases paths.len(),
{
    if paths.len() == 0 {
        Seq::empty()
    } else if paths.last() == main {
        others(paths.drop_last(), main)
    } else {
        others(paths.drop_last(), main).push(paths.last())
    }
}

/// The places of a release other than its main place.
pub open spec fn other_paths_of(release: ReleaseView, context: Context) -> Result<
    Seq<Seq<Seq<char>>>,
    ErrorView,
> {
    match release_path_of(release, context) {
        Ok(main) => Ok(others(release_paths(release, context.settings->0), main)),
        Err(e) => Err(e),
    }
}

/// `r` is what `expected` says, the value by its deep view and the error by
/// its view.
pub open spec fn gives<T: DeepView>(r: Result<T, Error>, expected: Result<T::V, ErrorView>) -> bool {
    match r {
        Ok(value) => expected == Ok::<T::V, ErrorView>(value.deep_view()),
        Err(e) => expected == Err::<T::V, ErrorView>(e@),
    }
}

/// Where a release belongs in the library.
pub trait LibraryRelease {
    /// The release by its view.
    spec fn release(&self) -> ReleaseView;

    /// The places of the release: one for each of its artists.
    fn paths(&self, context: &Context) -> (r: Result<Vec<LibraryPath>, Error>)
        ensures
            gives(r, release_paths_of(self.release(), *context)),
    ;

    /// The main place of the release: that of its first artist.
    fn path(&self, context: &Context) -> (r: Result<LibraryPath, Error>)
        ensures
            gives(r, release_path_of(self.release(), *context)),
    ;

    /// The places of the release other than the main one.
    fn other_paths(&self, context: &Context) -> (r: Result<Vec<LibraryPath>, Error>)
        ensures
            gives(r, other_paths_of(self.release(), *context)),
    ;
}

fn same_path(a: &LibraryPath, b: &LibraryPath) -> (r: bool)
    ensures
        r == (a.deep_view() == b.deep_view()),
{
    if a.len() != b.len() {
        assert(a.deep_view().len() != b.deep_view().len());
        return false;
    }
    let mut i: usize = 0;
    while i < a.len()
        invariant
            i <= a.len(),
            a.len() == b.len(),
            forall|k: int| 0 <= k < i ==> a@[k]@ == b@[k]@,
        decreases a.len() - i,
    {
        if a[i] != b[i] {
            assert(a.deep_view()[i as int] != b.deep_view()[i as int]);
            return false;
        }
        i += 1;
    }
    assert(a.deep_view() =~= b.deep_view());
    true
}

fn copy_path(path: &LibraryPath) -> (r: LibraryPath)
    ensures
        r.deep_view() == path.deep_view(),
{
    crate::text::copy_strings(path)
}

impl LibraryRelease for Release {
    open spec fn release(&self) -> ReleaseView {
        self@
    }

    fn paths(&self, context: &Context) -> (r: Result<Vec<LibraryPath>, Error>) {
        let settings = match &context.settings {
            Some(settings) => settings,
            None => {
                return Err(Error::Configuration(String::from_str("Could not read settings")));
            },
        };
        proof {
            reveal_strlit("{release.artist}");
            reveal_strlit("{release.title}");
        }
        let mut v: Vec<LibraryPath> = Vec::new();
        let mut i: usize = 0;
        while i < self.artists.len()
            invariant
                i <= self.artists.len(),
                "{release.artist}"@.len() > 0,
                "{release.title}"@.len() > 0,
                v@.len() == i,
                forall|k: int|
                    0 <= k < i ==> (#[trigger] v@[k]).deep_view() == release_paths(
                        self@,
                        *settings,
                    )[k],
            decreases self.artists.len() - i,
        {
            let named = replace(
                settings.release_name.as_str(),
                "{release.artist}",
                self.artists[i].name.as_str(),
            );
            let titled = replace(named.as_str(), "{release.title}", self.title.as_str());
            let mut path: LibraryPath = Vec::new();
            path.push(titled);
            proof {
                assert(self@.artists[i as int] == self.artists[i as int]@);
                assert(path.deep_view() =~= release_paths(self@, *settings)[i as int]);
            }
            v.push(path);
            i += 1;
        }
        assert(v.deep_view() =~= release_paths(self@, *settings));
        Ok(v)
    }

    fn path(&self, context: &Context) -> (r: Result<LibraryPath, Error>) {
        match self.paths(context) {
            Ok(paths) => {
                if paths.len() > 0 {
                    assert(paths.deep_view()[0] == paths[0].deep_view());
                    Ok(copy_path(&paths[0]))
                } else {
                    Err(
                        Error::Precondition(
                            String::from_str(
                                "Release does not have a path in the library, most definitely because the release has no artists",
                            ),
                        ),
                    )
                }
            },
            Err(e) => Err(e),
        }
    }

    fn other_paths(&self, context: &Context) -> (r: Result<Vec<LibraryPath>, Error>) {
        let main = match self.path(context) {
            Ok(main) => main,
            Err(e) => {
                return Err(e);
            },
        };
        let paths = match self.paths(context) {
            Ok(paths) => paths,
            Err(e) => {
                return Err(e);
            },
        };
        let ghost all = paths.deep_view();
        let mut v: Vec<LibraryPath> = Vec::new();
        assert(v.deep_view() =~= others(all.take(0), main.deep_view()));
        let mut i: usize = 0;
        while i < paths.len()
            invariant
                i <= paths.len(),
                all == paths.deep_view(),
                v.deep_view() == others(all.take(i as int), main.deep_view()),
            decreases paths.len() - i,
        {
            proof {
                assert(all.take(i + 1).drop_last() =~= all.take(i as int));
                assert(all.take(i + 1).last() == paths[i as int].deep_view());
            }
            if !same_path(&paths[i], &main) {
                let ghost before = v.deep_view();
                let kept = copy_path(&paths[i]);
                v.push(kept);
                assert(v.deep_view() =~= before.push(kept.deep_view()));
            }
            i += 1;
        }
        proof {
            assert(all.take(i as int) =~= all);
        }
        Ok(v)
    }
}

/// The name of the file of a track: the template and the extension with the
/// names in braces replaced.
pub open spec fn track_name(
    template: Seq<char>,
    ext: Seq<char>,
    disc: u64,
    number: u64,
    title: Seq<char>,
) -> Seq<char> {
    replaced(
        replaced(
            replaced(template + "."@ + ext, "{track.disc}"@, decimal_text(disc as nat)),
            "{track.number}"@,
            decimal_text(number as nat),
        ),
        "{track.title}"@,
        title,
    )
}

/// The error that is reported where a track has no release.
pub open spec fn no_release() -> ErrorView {
    ErrorView::Precondition("This track doesn't belong to any release"@)
}

/// The error that is reported where a track has no format.
pub open spec fn no_format() -> ErrorView {
    ErrorView::Precondition("The given Track doesn't have an associated format"@)
}

/// The error that is reported where a track has no disc.
pub open spec fn no_disc() -> ErrorView {
    ErrorView::Precondition("The track has no disc"@)
}

/// The error that is reported where a track has no number.
pub open spec fn no_number() -> ErrorView {
    ErrorView::Precondition("The track has no number"@)
}

/// The place of a track: the main place of its release, then the name of its
/// file. The track needs a release with a place, a format, a disc and a
/// number.
pub open spec fn track_path_of(track: TrackView, context: Context) -> Result<
    Seq<Seq<char>>,
    ErrorView,
> {
    match track.release {
        None => Err(no_release()),
        Some(release) => match release_path_of(release, context) {
            Err(e) => Err(e),
            Ok(base) => match track.format {
                None => Err(no_format()),
                Some(format) => match track.disc {
                    None => Err(no_disc()),
                    Some(disc) => match track.number {
                        None => Err(no_number()),
                        Some(number) => Ok(
                            base.push(
                                track_name(
                                    context.settings->0.track_name@,
                                    format.ext_spec(),
                                    disc,
                                    number,
                                    track.title,
                                ),
                            ),
                        ),
                    },
                },
            },
        },
    }
}

/// Where a track belongs in the library.
pub trait LibraryTrack {
    /// The track by its view.
    spec fn track(&self) -> TrackView;

    /// The place of the track's file.
    fn path(&self, context: &Context) -> (r: Result<LibraryPath, Error>)
        ensures
            gives(r, track_path_of(self.track(), *context)),
    ;
}

impl LibraryTrack for Track {
    open spec fn track(&self) -> TrackView {
        self@
    }

    fn path(&self, context: &Context) -> (r: Result<LibraryPath, Error>) {
        let release = match &self.release {
            Some(release) => release,
            None => {
                return Err(
                    Error::Precondition(String::from_str("This track doesn't belong to any release")),
                );
            },
        };
        let mut base = match (**release).path(context) {
            Ok(base) => base,
            Err(e) => {
                return Err(e);
            },
        };
        let settings = match &context.settings {
            Some(settings) => settings,
            None => {
                return Err(Error::Configuration(String::from_str("Could not read settings")));
            },
        };
        let format = match self.format {
            Some(format) => format,
            None => {
                return Err(
                    Error::Precondition(
                        String::from_str("The given Track doesn't have an associated format"),
                    ),
                );
            },
        };
        let mut extensionless = settings.track_name.clone();
        extensionless.append(".");
        extensionless.append(format.ext());
        let disc = match self.disc {
            Some(disc) => disc,
            None => {
                return Err(Error::Precondition(String::from_str("The track has no disc")));
            },
        };
        let number = match self.number {
            Some(number) => number,
            None => {
                return Err(Error::Precondition(String::from_str("The track has no number")));
            },
        };
        proof {
            reveal_strlit("{track.disc}");
            reveal_strlit("{track.number}");
            reveal_strlit("{track.title}");
        }
        let with_disc = replace(extensionless.as_str(), "{track.disc}", decimal(disc).as_str());
        let with_number = replace(with_disc.as_str(), "{track.number}", decimal(number).as_str());
        let name = replace(with_number.as_str(), "{track.title}", self.title.as_str());
        let ghost before = base.deep_view();
        base.push(name);
        assert(base.deep_view() =~= before.push(name@));
        Ok(base)
    }
}

} // verus!
