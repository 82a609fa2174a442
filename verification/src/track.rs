//! Tagged audio files: their format and their key/value tags.
//!
//! Reading and writing the tags of a file is the business of a codec for its
//! format. To the library a codec is a capability with a fixed set of
//! methods over keys and lists of values.

pub mod format;
pub mod key;

use crate::error::{Error, ErrorView};
use crate::text::same_text;
use crate::track::format::{sniffed_mime, Format};
use crate::track::key::TagKey;
use vstd::prelude::*;
use vstd::string::*;

verus! {

/// The tags of a file: pairs of a key and its values, in order.
pub type Pairs = Seq<(Seq<char>, Seq<Seq<char>>)>;

/// The position of the first pair with the key `key` at or after `from`, and
/// the number of pairs where there is none.
pub open spec fn position_from(pairs: Pairs, key: Seq<char>, from: int) -> int
    decreases pairs.len() - from,
{
    if from < 0 || from >= pairs.len() {
        pairs.len() as int
    } else if pairs[from].0 == key {
        from
    } else {
        position_from(pairs, key, from + 1)
    }
}

/// The position of the first pair with the key `key`, and the number of
/// pairs where there is none.
pub open spec fn position(pairs: Pairs, key: Seq<char>) -> int {
    position_from(pairs, key, 0)
}

/// The values of the first pair with the key `key`, if there is one.
pub open spec fn values_of(pairs: Pairs, key: Seq<char>) -> Option<Seq<Seq<char>>> {
    if position(pairs, key) < pairs.len() {
        Some(pairs[position(pairs, key)].1)
    } else {
        None
    }
}

/// The pairs with `values` for the key `key`: in place of the values of the
/// first pair with that key, or in a new pair at the end.
pub open spec fn with_values(pairs: Pairs, key: Seq<char>, values: Seq<Seq<char>>) -> Pairs {
    if position(pairs, key) < pairs.len() {
        pairs.update(position(pairs, key), (key, values))
    } else {
        pairs.push((key, values))
    }
}

/// Makes a boxed copy of a tag.
pub trait TagClone {
    /// The tags of a file, as pairs of a key and its values.
    spec fn pairs(&self) -> Pairs;

    /// A copy of the tag with the same pairs.
    fn clone_box(&self) -> (r: Box<Self>)
        ensures
            r.pairs() == self.pairs(),
    ;
}

/// What a codec offers: the tags of a file by key.
pub trait Tag: TagClone {
    /// The key that the format's own name `name` stands for, if any.
    spec fn key_of(&self, name: Seq<char>) -> Option<TagKey>;

    /// The format's own name for `key`, if it has one.
    spec fn name_of(&self, key: TagKey) -> Option<Seq<char>>;

    /// The values under `key`, if the tag has that key.
    fn get_str(&self, key: &str) -> (r: Option<Vec<String>>)
        ensures
            r.deep_view() == values_of(self.pairs(), key@),
    ;

    /// Sets the values under `key`. Where this fails nothing changes.
    fn set_str(&mut self, key: &str, values: Vec<String>) -> (r: Result<(), Error>)
        ensures
            r is Ok ==> final(self).pairs() == with_values(
                old(self).pairs(),
                key@,
                values.deep_view(),
            ),
            r is Err ==> final(self).pairs() == old(self).pairs(),
    ;

    /// Every key with its values.
    fn get_all(&self) -> (r: Vec<(String, Vec<String>)>)
        ensures
            r.deep_view() == self.pairs(),
    ;

    /// The key that the format's own name `name` stands for, if any.
    fn str_to_key(&self, name: &str) -> (r: Option<TagKey>)
        ensures
            r == self.key_of(name@),
    ;

    /// The format's own name for `key`, if it has one.
    fn key_to_str(&self, key: TagKey) -> (r: Option<&'static str>)
        ensures
            r.deep_view() == self.name_of(key),
    ;
}

/// Builds a tag from what was read from a file.
pub trait TagFrom: Tag + Sized {
    /// The tag with the given pairs.
    fn from_pairs(pairs: Vec<(String, Vec<String>)>) -> (r: Self)
        ensures
            r.pairs() == pairs.deep_view(),
    ;
}

/// Tags held in memory under the keys' plain names.
#[derive(Clone, Debug, PartialEq, Eq)]
pub struct TagMap {
    pub entries: Vec<(String, Vec<String>)>,
}

fn copy_values(values: &Vec<String>) -> (r: Vec<String>)
    ensures
        r.deep_view() == values.deep_view(),
{
    crate::text::copy_strings(values)
}

fn copy_entries(entries: &Vec<(String, Vec<String>)>) -> (r: Vec<(String, Vec<String>)>)
    ensures
        r.deep_view() == entries.deep_view(),
{
    let mut r: Vec<(String, Vec<String>)> = Vec::new();
    let mut i: usize = 0;
    while i < entries.len()
        invariant
            i <= entries.len(),
            r@.len() == i,
            forall|k: int| 0 <= k < i ==> (#[trigger] r@[k]).deep_view() == entries@[k].deep_view(),
        decreases entries.len() - i,
    {
        r.push((entries[i].0.clone(), copy_values(&entries[i].1)));
        i += 1;
    }
    assert(r.deep_view() =~= entries.deep_view());
    r
}

impl TagMap {
    /// The position of the first entry with the key `key`, and the number
    /// of entries where there is none.
    pub fn find(&self, key: &str) -> (r: usize)
        ensures
            r == position(self.entries.deep_view(), key@),
            r <= self.entries.len(),
    {
        let ghost pairs = self.entries.deep_view();
        let mut i: usize = 0;
        while i < self.entries.len()
            invariant
                i <= self.entries.len(),
                pairs == self.entries.deep_view(),
                position(pairs, key@) == position_from(pairs, key@, i as int),
            decreases self.entries.len() - i,
        {
            assert(pairs[i as int] == self.entries[i as int].deep_view());
            if same_text(self.entries[i].0.as_str(), key) {
                return i;
            }
            i += 1;
        }
        i
    }
}

impl TagClone for TagMap {
    open spec fn pairs(&self) -> Pairs {
        self.entries.deep_view()
    }

    fn clone_box(&self) -> (r: Box<Self>) {
        Box::new(TagMap { entries: copy_entries(&self.entries) })
    }
}

impl Tag for TagMap {
    open spec fn key_of(&self, name: Seq<char>) -> Option<TagKey> {
        TagKey::of_name(name)
    }

    open spec fn name_of(&self, key: TagKey) -> Option<Seq<char>> {
        Some(key.name_spec())
    }

    fn get_str(&self, key: &str) -> (r: Option<Vec<String>>) {
        let at = self.find(key);
        if at < self.entries.len() {
            assert(self.entries.deep_view()[at as int] == self.entries[at as int].deep_view());
            Some(copy_values(&self.entries[at].1))
        } else {
            None
        }
    }

    fn set_str(&mut self, key: &str, values: Vec<String>) -> (r: Result<(), Error>)
        ensures
            r is Ok,
    {
        let at = self.find(key);
        let ghost before = self.entries.deep_view();
        let entry = (String::from_str(key), values);
        if at < self.entries.len() {
            self.entries.set(at, entry);
            assert(self.entries.deep_view() =~= before.update(at as int, (key@, values.deep_view())));
        } else {
            self.entries.push(entry);
            assert(self.entries.deep_view() =~= before.push((key@, values.deep_view())));
        }
        Ok(())
    }

    fn get_all(&self) -> (r: Vec<(String, Vec<String>)>) {
        copy_entries(&self.entries)
    }

    fn str_to_key(&self, name: &str) -> (r: Option<TagKey>) {
        TagKey::from_name(name)
    }

    fn key_to_str(&self, key: TagKey) -> (r: Option<&'static str>) {
        Some(key.name())
    }
}

impl TagFrom for TagMap {
    fn from_pairs(pairs: Vec<(String, Vec<String>)>) -> (r: Self) {
        TagMap { entries: pairs }
    }
}

/// The list without the members that occurred before in it.
pub open spec fn without_repeats(list: Seq<Seq<char>>) -> Seq<Seq<char>>
    decreases list.len(),
{
    if list.len() == 0 {
        Seq::empty()
    } else {
        let before = without_repeats(list.drop_last());
        if before.contains(list.last()) {
            before
        } else {
            before.push(list.last())
        }
    }
}

fn holds(list: &Vec<String>, text: &String) -> (r: bool)
    ensures
        r == list.deep_view().contains(text@),
{
    let mut i: usize = 0;
    while i < list.len()
        invariant
            i <= list.len(),
            forall|k: int| 0 <= k < i ==> list.deep_view()[k] != text@,
        decreases list.len() - i,
    {
        assert(list.deep_view()[i as int] == list[i as int]@);
        if list[i] == *text {
            return true;
        }
        i += 1;
    }
    false
}

/// The list without the members that occurred before in it: of equal
/// strings the first stays.
pub fn dedup(list: Vec<String>) -> (r: Vec<String>)
    ensures
        r.deep_view() == without_repeats(list.deep_view()),
{
    let ghost all = list.deep_view();
    let mut r: Vec<String> = Vec::new();
    assert(r.deep_view() =~= Seq::<Seq<char>>::empty());
    let mut i: usize = 0;
    while i < list.len()
        invariant
            i <= list.len(),
            all == list.deep_view(),
            r.deep_view() == without_repeats(all.take(i as int)),
        decreases list.len() - i,
    {
        proof {
            assert(all.take(i + 1).drop_last() =~= all.take(i as int));
            assert(all.take(i + 1).last() == list[i as int]@);
        }
        if !holds(&r, &list[i]) {
            let ghost before = r.deep_view();
            r.push(list[i].clone());
            assert(r.deep_view() =~= before.push(list[i as int]@));
        }
        i += 1;
    }
    proof {
        assert(all.take(i as int) =~= all);
    }
    r
}

/// The first member of a list. An empty list is a failure with the given
/// message.
pub fn take_first(list: Vec<String>, message: &str) -> (r: Result<String, Error>)
    ensures
        list.len() > 0 ==> r is Ok && r->Ok_0@ == list[0]@,
        list.len() == 0 ==> r is Err && r->Err_0@ == ErrorView::Precondition(message@),
{
    if list.len() > 0 {
        Ok(list[0].clone())
    } else {
        Err(Error::Precondition(String::from_str(message)))
    }
}

/// A tagged audio file: where it is, what format it has and what its tags
/// say.
#[derive(Clone, Debug, PartialEq, Eq)]
pub struct TrackFile {
    path: String,
    format: Format,
    tag: TagMap,
}

/// The error that is reported where the format of the file at `path` cannot
/// be told.
pub open spec fn unidentified(path: Seq<char>) -> ErrorView {
    ErrorView::Decode("Could not identify format for file: "@ + path)
}

/// The error that is reported where the tags of the file at `path` cannot
/// be read.
pub open spec fn unreadable(path: Seq<char>) -> ErrorView {
    ErrorView::Decode("Could not read metadata from file: "@ + path)
}

/// What `open` owes for a file at `path` of the format `format`, whose tags
/// `read` reads: the file with the tags that were read, or the failure to
/// read them.
pub open spec fn opened<F: FnOnce(Format) -> Result<TagMap, Error>>(
    path: Seq<char>,
    format: Format,
    read: F,
    r: Result<TrackFile, Error>,
) -> bool {
    match r {
        Ok(file) => file.path_spec() == path && file.format_spec() == format && call_ensures(
            read,
            (format,),
            Ok::<TagMap, Error>(file.tag_spec()),
        ),
        Err(e) => e@ == unreadable(path) && exists|cause: Error|
            call_ensures(read, (format,), Err::<TagMap, Error>(cause)),
    }
}

impl TrackFile {
    /// Where the file is.
    pub closed spec fn path_spec(&self) -> Seq<char> {
        self.path@
    }

    /// The format of the file.
    pub closed spec fn format_spec(&self) -> Format {
        self.format
    }

    /// The tags of the file.
    pub closed spec fn tag_spec(&self) -> TagMap {
        self.tag
    }

    /// Opens the file at `path`, whose first bytes are `head`: tells its
    /// format from the bytes and has `read` read its tags for that format.
    /// Fails where the format cannot be told or the tags cannot be read.
    pub fn open<F: FnOnce(Format) -> Result<TagMap, Error>>(path: &String, head: &[u8], read: F) -> (r:
        Result<TrackFile, Error>)
        requires
            forall|format: Format| call_requires(read, (format,)),
        ensures
            match Format::identified(sniffed_mime(head@)) {
                Some(format) => opened(path@, format, read, r),
                None => r is Err && r->Err_0@ == unidentified(path@),
            },
    {
        match Format::from_bytes(head) {
            Ok(format) => TrackFile::open_as(path, format, read),
            Err(_) => {
                let mut message = String::from_str("Could not identify format for file: ");
                message.append(path.as_str());
                Err(Error::Decode(message))
            },
        }
    }

    /// Opens the file at `path`, of the format `format`: has `read` read its
    /// tags. Fails where the tags cannot be read.
    pub fn open_as<F: FnOnce(Format) -> Result<TagMap, Error>>(
        path: &String,
        format: Format,
        read: F,
    ) -> (r: Result<TrackFile, Error>)
        requires
            call_requires(read, (format,)),
        ensures
            opened(path@, format, read, r),
    {
        match read(format) {
            Ok(tag) => Ok(TrackFile { path: path.clone(), format, tag }),
            Err(_) => {
                let mut message = String::from_str("Could not read metadata from file: ");
                message.append(path.as_str());
                Err(Error::Decode(message))
            },
        }
    }

    /// Where the file is.
    pub fn path(&self) -> (r: &String)
        ensures
            r@ == self.path_spec(),
    {
        &self.path
    }

    /// The format of the file.
    pub fn format(&self) -> (r: Format)
        ensures
            r == self.format_spec(),
    {
        self.format
    }

    /// The tags of the file.
    pub fn tag(&self) -> (r: &TagMap)
        ensures
            *r == self.tag_spec(),
    {
        &self.tag
    }

    /// Records that the file was copied to `path`: from now on the file is
    /// there. Returns where it was before.
    pub fn relocate(&mut self, path: String) -> (r: String)
        ensures
            r@ == old(self).path_spec(),
            final(self).path_spec() == path@,
            final(self).format_spec() == old(self).format_spec(),
            final(self).tag_spec() == old(self).tag_spec(),
    {
        let mut previous = path;
        std::mem::swap(&mut self.path, &mut previous);
        previous
    }

    /// What is to be written: the file's place and every key with its
    /// values.
    pub fn write(&self) -> (r: (String, Vec<(String, Vec<String>)>))
        ensures
            r.0@ == self.path_spec(),
            r.1.deep_view() == self.tag_spec().pairs(),
    {
        (self.path.clone(), self.tag.get_all())
    }

    /// The values under `key`; none where the file has no such tag.
    pub fn get_tag(&self, key: TagKey) -> (r: Result<Vec<String>, Error>)
        ensures
            r is Ok,
            r->Ok_0.deep_view() == match values_of(self.tag_spec().pairs(), key.name_spec()) {
                Some(values) => values,
                None => Seq::empty(),
            },
    {
        match self.tag.key_to_str(key) {
            Some(name) => match self.tag.get_str(name) {
                Some(values) => Ok(values),
                None => {
                    let none: Vec<String> = Vec::new();
                    assert(none.deep_view() =~= Seq::<Seq<char>>::empty());
                    Ok(none)
                },
            },
            None => Err(Error::Precondition(String::from_str("The format has no such tag"))),
        }
    }
}

/// What a track says of itself.
pub trait TrackLike {
    /// The artists of the track, each once.
    fn artists(&self) -> (r: Result<Vec<String>, Error>);

    /// The artists of the album.
    fn album_artists(&self) -> (r: Result<Vec<String>, Error>);

    /// The title of the track.
    fn title(&self) -> (r: Result<String, Error>);

    /// The title of the album.
    fn album_title(&self) -> (r: Result<String, Error>);
}

/// The values of a tag key in a file's tags; none where it has no such tag.
pub open spec fn tagged(pairs: Pairs, key: TagKey) -> Seq<Seq<char>> {
    match values_of(pairs, key.name_spec()) {
        Some(values) => values,
        None => Seq::empty(),
    }
}

/// The first of the values of a tag key, or the failure with `message` where
/// there is none.
pub open spec fn first_tagged(pairs: Pairs, key: TagKey, message: Seq<char>) -> Result<
    Seq<char>,
    ErrorView,
> {
    if tagged(pairs, key).len() > 0 {
        Ok(tagged(pairs, key)[0])
    } else {
        Err(ErrorView::Precondition(message))
    }
}

impl TrackLike for TrackFile {
    fn artists(&self) -> (r: Result<Vec<String>, Error>)
        ensures
            r is Ok,
            r->Ok_0.deep_view() == without_repeats(
                tagged(self.tag_spec().pairs(), TagKey::AlbumArtist),
            ),
    {
        match self.get_tag(TagKey::AlbumArtist) {
            Ok(values) => Ok(dedup(values)),
            Err(e) => Err(e),
        }
    }

    fn album_artists(&self) -> (r: Result<Vec<String>, Error>)
        ensures
            r is Ok,
            r->Ok_0.deep_view() == tagged(self.tag_spec().pairs(), TagKey::AlbumArtist),
    {
        self.get_tag(TagKey::AlbumArtist)
    }

    fn title(&self) -> (r: Result<String, Error>)
        ensures
            match first_tagged(self.tag_spec().pairs(), TagKey::TrackTitle, "Track has no title"@) {
                Ok(title) => r is Ok && r->Ok_0@ == title,
                Err(e) => r is Err && r->Err_0@ == e,
            },
    {
        match self.get_tag(TagKey::TrackTitle) {
            Ok(values) => {
                assert(values.len() > 0 ==> values.deep_view()[0] == values[0]@);
                take_first(values, "Track has no title")
            },
            Err(e) => Err(e),
        }
    }

    fn album_title(&self) -> (r: Result<String, Error>)
        ensures
            match first_tagged(
                self.tag_spec().pairs(),
                TagKey::Album,
                "Track has no album title"@,
            ) {
                Ok(title) => r is Ok && r->Ok_0@ == title,
                Err(e) => r is Err && r->Err_0@ == e,
            },
    {
        match self.get_tag(TagKey::Album) {
            Ok(values) => {
                assert(values.len() > 0 ==> values.deep_view()[0] == values[0]@);
                take_first(values, "Track has no album title")
            },
            Err(e) => Err(e),
        }
    }
}

} // verus!
