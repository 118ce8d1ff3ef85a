use vstd::prelude::*;

verus! {

/// The mathematical state of a `SongData`.
pub struct SongDataView {
    pub id: usize,
    pub title: Seq<char>,
    pub artist: Option<Seq<char>>,
    pub duration: (u64, u64),
}

/// What the player lists for one song: its index in the library, its title,
/// its artist if known, and its length as minutes and seconds.
pub struct SongData {
    id: usize,
    title: String,
    artist: Option<String>,
    duration: (u64, u64),
}

impl View for SongData {
    type V = SongDataView;

    closed spec fn view(&self) -> SongDataView {
        SongDataView {
            id: self.id,
            title: self.title@,
            artist: match self.artist {
                Some(a) => Some(a@),
                None => None,
            },
            duration: self.duration,
        }
    }
}

impl SongData {
    /// A song entry with no artist, lasting `duration_secs` whole seconds.
    pub fn new(id: usize, title: String, duration_secs: u64) -> (r: SongData)
        ensures
            r@ == (SongDataView {
                id,
                title: title@,
                artist: None,
                duration: ((duration_secs / 60) as u64, (duration_secs % 60) as u64),
            }),
    {
        SongData { id, title, artist: None, duration: (duration_secs / 60, duration_secs % 60) }
    }

    /// The song's index in the library.
    pub fn id(&self) -> (r: usize)
        ensures
            r == self@.id,
    {
        self.id
    }

    /// The song's title.
    pub fn title(&self) -> (r: &str)
        ensures
            r@ == self@.title,
    {
        self.title.as_str()
    }

    /// The song's artist, if known.
    pub fn artist(&self) -> (r: Option<&str>)
        ensures
            match r {
                Some(a) => self@.artist == Some(a@),
                None => self@.artist is None,
            },
    {
        match &self.artist {
            Some(a) => Some(a.as_str()),
            None => None,
        }
    }

    /// The song's length as whole minutes and the seconds past them.
    pub fn duration(&self) -> (r: (u64, u64))
        ensures
            r == self@.duration,
    {
        self.duration
    }

    /// Replaces the title, as a tag read from the file gives it.
    pub fn set_title(&mut self, title: String)
        ensures
            final(self)@ == (SongDataView { title: title@, ..old(self)@ }),
    {
        self.title = title;
    }

    /// Records the artist, as a tag read from the file gives it.
    pub fn set_artist(&mut self, artist: String)
        ensures
            final(self)@ == (SongDataView { artist: Some(artist@), ..old(self)@ }),
    {
        self.artist = Some(artist);
    }
}

} // verus!
