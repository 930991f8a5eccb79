//! Sessions: for a short while after a source was looked at, the variants
//! that were found are kept under an identifier that cannot be guessed, so
//! that a later request can name a variant without carrying its address.
//!
//! A session is written once and never changed. A variant carries the address
//! at the content network and the headers that the network wants to see,
//! cookies among them, which is why the identifier has to be unguessable.

use crate::text::{has_prefix, starts_with, str_eq};
use uuid::Uuid;
use vstd::prelude::*;
use vstd::utf8::*;

verus! {

/// One variant of a media item that can be fetched.
#[derive(Clone, Debug, PartialEq, Eq)]
pub struct FormatInfo {
    pub url: String,
    pub http_headers: Vec<(String, String)>,
    pub quality: String,
    pub resolution: String,
    pub content_type: String,
}

/// The variants of one media item, each under its identifier.
#[derive(Clone, Debug, PartialEq, Eq)]
pub struct SessionData {
    pub video_id: String,
    pub cookies: Option<String>,
    /// The variants in the order in which they were first put in. No
    /// identifier occurs twice.
    pub formats: Vec<(String, FormatInfo)>,
}

/// The texts of a `FormatInfo`.
pub struct InfoView {
    pub url: Seq<char>,
    pub http_headers: Seq<(Seq<char>, Seq<char>)>,
    pub quality: Seq<char>,
    pub resolution: Seq<char>,
    pub content_type: Seq<char>,
}

impl View for FormatInfo {
    type V = InfoView;

    open spec fn view(&self) -> InfoView {
        InfoView {
            url: self.url@,
            http_headers: Seq::new(
                self.http_headers@.len(),
                |i: int| (self.http_headers@[i].0@, self.http_headers@[i].1@),
            ),
            quality: self.quality@,
            resolution: self.resolution@,
            content_type: self.content_type@,
        }
    }
}

/// The variants of a session with their identifiers, as texts.
pub open spec fn session_view(formats: Seq<(String, FormatInfo)>) -> Seq<(Seq<char>, InfoView)> {
    Seq::new(formats.len(), |i: int| (formats[i].0@, formats[i].1@))
}

/// The variants with `info` put under `id`: in the place of the variant that
/// is there under that identifier, or else at the end.
pub open spec fn put(entries: Seq<(Seq<char>, InfoView)>, id: Seq<char>, info: InfoView) -> Seq<
    (Seq<char>, InfoView),
>
    decreases entries.len(),
{
    if entries.len() == 0 {
        seq![(id, info)]
    } else if entries[0].0 == id {
        seq![(id, info)] + entries.skip(1)
    } else {
        seq![entries[0]] + put(entries.skip(1), id, info)
    }
}

/// Putting a variant under an identifier that is there replaces the first under it.
pub proof fn lemma_put_replaces(
    entries: Seq<(Seq<char>, InfoView)>,
    id: Seq<char>,
    info: InfoView,
    at: int,
)
    requires
        0 <= at < entries.len(),
        entries[at].0 == id,
        forall|j: int| 0 <= j < at ==> entries[j].0 != id,
    ensures
        put(entries, id, info) == entries.update(at, (id, info)),
    decreases entries.len(),
{
    if at == 0 {
        assert(seq![(id, info)] + entries.skip(1) =~= entries.update(0, (id, info)));
    } else {
        lemma_put_replaces(entries.skip(1), id, info, at - 1);
        assert(seq![entries[0]] + entries.skip(1).update(at - 1, (id, info)) =~= entries.update(
            at,
            (id, info),
        ));
    }
}

/// Putting a variant under an identifier that is not there adds it at the end.
pub proof fn lemma_put_appends(entries: Seq<(Seq<char>, InfoView)>, id: Seq<char>, info: InfoView)
    requires
        forall|j: int| 0 <= j < entries.len() ==> entries[j].0 != id,
    ensures
        put(entries, id, info) == entries.push((id, info)),
    decreases entries.len(),
{
    if entries.len() == 0 {
        assert(seq![(id, info)] =~= entries.push((id, info)));
    } else {
        assert forall|j: int| 0 <= j < entries.skip(1).len() implies entries.skip(1)[j].0 != id by {
            assert(entries.skip(1)[j] == entries[j + 1]);
        }
        lemma_put_appends(entries.skip(1), id, info);
        assert(seq![entries[0]] + entries.skip(1).push((id, info)) =~= entries.push((id, info)));
    }
}

/// Why a session could not serve a request.
#[derive(Clone, Copy, Debug, PartialEq, Eq, Structural)]
pub enum SessionError {
    /// The session is not in the store: it has expired, or never was.
    SessionExpired,
    /// The session holds no variant that the request names.
    FormatNotFound,
}

impl SessionError {
    /// The status with which the failure is answered. A session that is gone
    /// is told apart from a variant that is not there: the client looks at the
    /// source again for the one, and picks another variant for the other.
    pub fn status(&self) -> (status: u16)
        ensures
            status == (match *self {
                SessionError::SessionExpired => 410u16,
                SessionError::FormatNotFound => 400u16,
            }),
    {
        match self {
            SessionError::SessionExpired => 410,
            SessionError::FormatNotFound => 400,
        }
    }

    /// The code that the answer carries for programs to read.
    pub fn code(&self) -> (code: &'static str)
        ensures
            code@ == (match *self {
                SessionError::SessionExpired => "SESSION_EXPIRED"@,
                SessionError::FormatNotFound => "FORMAT_NOT_FOUND"@,
            }),
    {
        match self {
            SessionError::SessionExpired => "SESSION_EXPIRED",
            SessionError::FormatNotFound => "FORMAT_NOT_FOUND",
        }
    }

    /// What the client is told, for a request that named `format_id`.
    pub fn message(&self, format_id: &str) -> (text: String)
        ensures
            text@ == (match *self {
                SessionError::SessionExpired =>
                    "Session expired or not found. Please extract again."@,
                SessionError::FormatNotFound => "Format '"@ + format_id@
                    + "' not found in session"@,
            }),
    {
        match self {
            SessionError::SessionExpired =>
                "Session expired or not found. Please extract again.".to_owned(),
            SessionError::FormatNotFound => crate::text::join3(
                "Format '",
                format_id,
                "' not found in session",
            ),
        }
    }
}

/// True for a variant with a picture: it has a resolution, and that is not `audio only`.
pub open spec fn is_video(f: FormatInfo) -> bool {
    f.resolution@.len() > 0 && f.resolution@ != "audio only"@
}

/// True for a variant that is sound alone.
pub open spec fn is_audio(f: FormatInfo) -> bool {
    f.resolution@ == "audio only"@
}

/// True for a variant that is a still image.
pub open spec fn is_image(f: FormatInfo) -> bool {
    has_prefix(encode_utf8(f.content_type@), encode_utf8("image/"@))
}

/// True when a request for `format_id` can be served by the variant `f` kept
/// under `entry_id`: `best`, `best_audio` and `best_image` ask for a kind of
/// variant, anything else for the variant under that identifier.
pub open spec fn selects(format_id: Seq<char>, entry_id: Seq<char>, f: FormatInfo) -> bool {
    if format_id == "best"@ {
        is_video(f)
    } else if format_id == "best_audio"@ {
        is_audio(f)
    } else if format_id == "best_image"@ {
        is_image(f)
    } else {
        entry_id == format_id
    }
}

/// True when the variant at place `at` is the first that serves `format_id`.
pub open spec fn is_first_choice(
    formats: Seq<(String, FormatInfo)>,
    format_id: Seq<char>,
    at: int,
) -> bool {
    &&& 0 <= at < formats.len()
    &&& selects(format_id, formats[at].0@, formats[at].1)
    &&& forall|j: int| 0 <= j < at ==> !selects(format_id, formats[j].0@, formats[j].1)
}

/// True when no variant serves `format_id`.
pub open spec fn no_choice(formats: Seq<(String, FormatInfo)>, format_id: Seq<char>) -> bool {
    forall|j: int| 0 <= j < formats.len() ==> !selects(format_id, formats[j].0@, formats[j].1)
}

/// True when no identifier occurs twice.
pub open spec fn unique_ids(formats: Seq<(String, FormatInfo)>) -> bool {
    forall|i: int, j: int|
        0 <= i < j < formats.len() ==> #[trigger] formats[i].0@ != #[trigger] formats[j].0@
}

/// The place of the variant under `id`, if there is one.
pub open spec fn place_of(formats: Seq<(String, FormatInfo)>, id: Seq<char>) -> Option<int> {
    if exists|i: int| 0 <= i < formats.len() && formats[i].0@ == id {
        Some(choose|i: int| 0 <= i < formats.len() && formats[i].0@ == id)
    } else {
        None
    }
}

/// True when `text` has the shape of an identifier in the hyphenated form: 36
/// characters, hyphens at four fixed places, lower-case hexadecimal digits elsewhere.
pub open spec fn is_hyphenated_id(text: Seq<char>) -> bool {
    &&& text.len() == 36
    &&& forall|i: int|
        0 <= i < 36 ==> (if i == 8 || i == 13 || i == 18 || i == 23 {
            text[i] == '-'
        } else {
            ('0' <= #[trigger] text[i] <= '9') || ('a' <= text[i] <= 'f')
        })
}

/// True when the text is written as a random identifier is: in the hyphenated
/// form, with the digit that tells the version and the digit that tells the
/// variant in their places.
pub open spec fn is_random_id(text: Seq<char>) -> bool {
    &&& is_hyphenated_id(text)
    &&& text[14] == '4'
    &&& (text[19] == '8' || text[19] == '9' || text[19] == 'a' || text[19] == 'b')
}

/// Calls `Uuid::new_v4` of the `uuid` crate and writes the identifier out.
///
/// Trusted: the text has the hyphenated form, 32 lower-case hexadecimal digits
/// in groups of 8, 4, 4, 4 and 12, with the version `4` and the variant in
/// their places. The other digits are random, 122 bits of them, so nothing
/// more is claimed, and two calls need not agree. The call takes its bits from
/// the operating system and stops the process where that has none to give.
#[verifier::external_body]
pub(crate) fn random_id() -> (id: String)
    ensures
        is_random_id(id@),
{
    Uuid::new_v4().to_string()
}

/// The variant asked for where the request names none.
pub fn requested_format<'a>(format: Option<&'a str>) -> (format_id: &'a str)
    ensures
        format_id@ == (match format {
            Some(id) => id@,
            None => "best"@,
        }),
{
    match format {
        Some(id) => id,
        None => "best",
    }
}

/// True when a request for `format_id` can be served by the variant `f`
/// kept under `entry_id`.
pub fn serves(format_id: &str, entry_id: &str, f: &FormatInfo) -> (r: bool)
    ensures
        r == selects(format_id@, entry_id@, *f),
{
    if str_eq(format_id, "best") {
        f.resolution.as_str().unicode_len() > 0 && !str_eq(f.resolution.as_str(), "audio only")
    } else if str_eq(format_id, "best_audio") {
        str_eq(f.resolution.as_str(), "audio only")
    } else if str_eq(format_id, "best_image") {
        starts_with(f.content_type.as_str(), "image/")
    } else {
        str_eq(entry_id, format_id)
    }
}

impl SessionData {
    /// True when the session is as it should be: no identifier occurs twice.
    pub open spec fn wf(self) -> bool {
        unique_ids(self.formats@)
    }

    /// A new identifier for a session, from the system's source of randomness.
    pub fn new_id() -> (id: String)
        ensures
            is_random_id(id@),
    {
        random_id()
    }

    /// A session without variants.
    pub fn new(video_id: String, cookies: Option<String>) -> (session: Self)
        ensures
            session.video_id == video_id,
            session.cookies == cookies,
            session.formats@.len() == 0,
            session.wf(),
    {
        SessionData { video_id, cookies, formats: Vec::new() }
    }

    /// The place of the variant under `id`.
    pub fn find(&self, id: &str) -> (r: Option<usize>)
        ensures
            match r {
                Some(i) => i < self.formats@.len() && self.formats@[i as int].0@ == id@
                    && forall|j: int| 0 <= j < i ==> self.formats@[j].0@ != id@,
                None => forall|j: int| 0 <= j < self.formats@.len() ==> self.formats@[j].0@ != id@,
            },
    {
        let mut i: usize = 0;
        while i < self.formats.len()
            invariant
                0 <= i <= self.formats@.len(),
                forall|j: int| 0 <= j < i ==> self.formats@[j].0@ != id@,
            decreases self.formats@.len() - i,
        {
            if str_eq(self.formats[i].0.as_str(), id) {
                return Some(i);
            }
            i = i + 1;
        }
        None
    }

    /// Puts the variant `info` under `id`. A variant that was there under that
    /// identifier is replaced and keeps its place; a new one goes to the end.
    pub fn insert(&mut self, id: String, info: FormatInfo)
        requires
            old(self).wf(),
        ensures
            final(self).wf(),
            final(self).video_id == old(self).video_id,
            final(self).cookies == old(self).cookies,
            match place_of(old(self).formats@, id@) {
                Some(i) => final(self).formats@ == old(self).formats@.update(i, (id, info)),
                None => final(self).formats@ == old(self).formats@.push((id, info)),
            },
            session_view(final(self).formats@) == put(session_view(old(self).formats@), id@, info@),
    {
        let ghost before = session_view(self.formats@);
        match self.find(id.as_str()) {
            Some(i) => {
                proof {
                    lemma_put_replaces(before, id@, info@, i as int);
                    let found = place_of(self.formats@, id@).unwrap();
                    assert(found == i) by {
                        if found != i {
                            if found < i {
                                assert(self.formats@[found].0@ != self.formats@[i as int].0@);
                            } else {
                                assert(self.formats@[i as int].0@ != self.formats@[found].0@);
                            }
                        }
                    }
                }
                self.formats.set(i, (id, info));
                assert(session_view(self.formats@) =~= before.update(i as int, (id@, info@)));
            },
            None => {
                proof {
                    lemma_put_appends(before, id@, info@);
                }
                self.formats.push((id, info));
                assert(session_view(self.formats@) =~= before.push((id@, info@)));
            },
        }
    }

    /// The place of the first variant that serves a request for `format_id`.
    pub fn resolve_index(&self, format_id: &str) -> (r: Option<usize>)
        ensures
            match r {
                Some(at) => is_first_choice(self.formats@, format_id@, at as int),
                None => no_choice(self.formats@, format_id@),
            },
    {
        let mut i: usize = 0;
        while i < self.formats.len()
            invariant
                0 <= i <= self.formats@.len(),
                forall|j: int|
                    0 <= j < i ==> !selects(format_id@, self.formats@[j].0@, self.formats@[j].1),
            decreases self.formats@.len() - i,
        {
            if serves(format_id, self.formats[i].0.as_str(), &self.formats[i].1) {
                return Some(i);
            }
            i = i + 1;
        }
        None
    }

    /// The variant that serves a request for `format_id`: the first of its
    /// kind for `best`, `best_audio` and `best_image`, the one under that
    /// identifier for any other. `FormatNotFound` where the session has none.
    pub fn resolve(&self, format_id: &str) -> (r: Result<&FormatInfo, SessionError>)
        ensures
            match r {
                Ok(f) => exists|at: int|
                    is_first_choice(self.formats@, format_id@, at) && *f == self.formats@[at].1,
                Err(e) => e == SessionError::FormatNotFound && no_choice(self.formats@, format_id@),
            },
    {
        match self.resolve_index(format_id) {
            Some(at) => {
                assert(is_first_choice(self.formats@, format_id@, at as int));
                Ok(&self.formats[at].1)
            },
            None => Err(SessionError::FormatNotFound),
        }
    }
}

/// The session that a reply of the store stands for. A session that is not
/// there is gone: the source has to be looked at again.
pub fn session_or_gone(found: Option<SessionData>) -> (r: Result<SessionData, SessionError>)
    ensures
        r == (match found {
            Some(session) => Ok::<SessionData, SessionError>(session),
            None => Err::<SessionData, SessionError>(SessionError::SessionExpired),
        }),
{
    match found {
        Some(session) => Ok(session),
        None => Err(SessionError::SessionExpired),
    }
}

/// The first choice is one place only: what a request resolves to is settled
/// by the session and the request.
pub proof fn law_first_choice_unique(
    formats: Seq<(String, FormatInfo)>,
    format_id: Seq<char>,
    a: int,
    b: int,
)
    requires
        is_first_choice(formats, format_id, a),
        is_first_choice(formats, format_id, b),
    ensures
        a == b,
{
}

/// Resolution by kind and by name. In a session with one variant of sound
/// alone and one with a picture, under identifiers that are none of the three
/// names of kinds, `best` is the one with the picture, `best_audio` the one
/// with sound alone, each identifier its own variant, and any other name none.
pub proof fn law_resolution(formats: Seq<(String, FormatInfo)>, other: Seq<char>)
    requires
        formats.len() == 2,
        is_audio(formats[0].1),
        is_video(formats[1].1),
        formats[0].0@ != formats[1].0@,
        other != "best"@ && other != "best_audio"@ && other != "best_image"@,
        other != formats[0].0@ && other != formats[1].0@,
        formats[0].0@ != "best"@ && formats[0].0@ != "best_audio"@ && formats[0].0@
            != "best_image"@,
        formats[1].0@ != "best"@ && formats[1].0@ != "best_audio"@ && formats[1].0@
            != "best_image"@,
    ensures
        is_first_choice(formats, "best"@, 1),
        is_first_choice(formats, "best_audio"@, 0),
        is_first_choice(formats, formats[0].0@, 0),
        is_first_choice(formats, formats[1].0@, 1),
        no_choice(formats, other),
{
    reveal_strlit("best");
    reveal_strlit("best_audio");
    reveal_strlit("best_image");
    assert("best"@.len() == 4);
    assert("best_audio"@.len() == 10);
    assert("best_image"@[5] == 'i' && "best_audio"@[5] == 'a');
    assert("best_audio"@ != "best"@);
    assert("best_audio"@ != "best_image"@);
    assert(selects("best_audio"@, formats[0].0@, formats[0].1));
}

} // verus!
