//! The `/api/now` response cache: a cheap fingerprint of what the overlay
//! shows, and the last serialized response kept under its fingerprint.

use vstd::prelude::*;
use crate::text::{decimal, lemma_decimal_injective, push_char, push_decimal};

verus! {

/// The character that separates the fields of a fingerprint.
pub open spec fn field_sep() -> char {
    '\u{1}'
}

/// Fields joined by the separator: `f0 SEP f1 SEP ... SEP fn`.
pub open spec fn join_fields(fs: Seq<Seq<char>>) -> Seq<char>
    decreases fs.len(),
{
    if fs.len() == 0 {
        Seq::empty()
    } else if fs.len() == 1 {
        fs[0]
    } else {
        fs[0] + seq![field_sep()] + join_fields(fs.drop_first())
    }
}

/// The text of an optional field; an absent one is empty.
pub open spec fn opt_text(o: Option<&str>) -> Seq<char> {
    match o {
        Some(t) => t@,
        None => Seq::empty(),
    }
}

/// `1` while playing, `0` otherwise.
pub open spec fn flag_text(b: bool) -> Seq<char> {
    if b { seq!['1'] } else { seq!['0'] }
}

/// The album-art part: `art-len:` and the byte length of the art, or
/// nothing when there is no art.
pub open spec fn art_text(art: Option<&str>) -> Seq<char> {
    match art {
        Some(a) => "art-len:"@ + decimal(a.len() as nat),
        None => Seq::empty(),
    }
}

/// What the overlay shows of the song now playing, as the fingerprint
/// reads it. The playback percentage is given as the text it is shown as.
pub struct NowFields<'a> {
    pub title: &'a str,
    pub artist: &'a str,
    pub album: &'a str,
    pub is_playing: bool,
    pub position: Option<&'a str>,
    pub duration: Option<&'a str>,
    pub pct_text: Option<&'a str>,
    pub album_art: Option<&'a str>,
}

/// The fields of the fingerprint of `song` shown with `font_family`.
pub open spec fn fingerprint_fields(song: NowFields, font_family: &str) -> Seq<Seq<char>> {
    seq![
        song.title@,
        song.artist@,
        song.album@,
        flag_text(song.is_playing),
        opt_text(song.position),
        opt_text(song.duration),
        opt_text(song.pct_text),
        font_family@,
        art_text(song.album_art),
    ]
}

/// The fingerprint of `song` shown with `font_family`.
pub open spec fn fingerprint(song: NowFields, font_family: &str) -> Seq<char> {
    join_fields(fingerprint_fields(song, font_family))
}

proof fn lemma_join_push(fs: Seq<Seq<char>>, x: Seq<char>)
    requires
        fs.len() >= 1,
    ensures
        join_fields(fs.push(x)) == join_fields(fs) + seq![field_sep()] + x,
    decreases fs.len(),
{
    let sep = seq![field_sep()];
    if fs.len() == 1 {
        assert(fs.push(x).drop_first() =~= seq![x]);
        assert(join_fields(seq![x]) == x);
    } else {
        lemma_join_push(fs.drop_first(), x);
        assert(fs.push(x).drop_first() =~= fs.drop_first().push(x));
        assert(join_fields(fs.push(x)) == fs[0] + sep + join_fields(fs.drop_first().push(x)));
        assert(fs[0] + sep + (join_fields(fs.drop_first()) + sep + x) =~= (fs[0] + sep + join_fields(fs.drop_first())) + sep + x);
    }
}

/// Appends the separator and then `t`.
fn append_field(s: &mut String, text: &str)
    ensures
        final(s)@ == old(s)@ + seq![field_sep()] + text@,
{
    push_char(s, '\u{1}');
    s.append(text);
    assert(s@ =~= old(s)@ + seq![field_sep()] + text@);
}

fn opt_str<'a>(o: Option<&'a str>) -> (res: &'a str)
    ensures
        res@ == opt_text(o),
{
    match o {
        Some(t) => t,
        None => {
            proof {
                reveal_strlit("");
            }
            ""
        },
    }
}

/// A cheap fingerprint of what the overlay shows: the texts of the song and
/// the font, and of the album art only its length, so that the large art
/// itself is neither read nor copied. The last-update time is not part of it.
pub fn now_fingerprint(song: &NowFields, font_family: &str) -> (fp: String)
    ensures
        fp@ == fingerprint(*song, font_family),
{
    let ghost all = fingerprint_fields(*song, font_family);
    let mut fp = String::new();
    fp.append(song.title);
    let ghost mut fs: Seq<Seq<char>> = seq![song.title@];
    assert(fp@ =~= join_fields(fs));
    proof { lemma_join_push(fs, song.artist@); fs = fs.push(song.artist@); }
    append_field(&mut fp, song.artist);
    proof { lemma_join_push(fs, song.album@); fs = fs.push(song.album@); }
    append_field(&mut fp, song.album);
    let flag: &str = if song.is_playing { "1" } else { "0" };
    proof {
        reveal_strlit("1");
        reveal_strlit("0");
        assert(flag@ =~= flag_text(song.is_playing));
        lemma_join_push(fs, flag_text(song.is_playing));
        fs = fs.push(flag_text(song.is_playing));
    }
    append_field(&mut fp, flag);
    proof { lemma_join_push(fs, opt_text(song.position)); fs = fs.push(opt_text(song.position)); }
    append_field(&mut fp, opt_str(song.position));
    proof { lemma_join_push(fs, opt_text(song.duration)); fs = fs.push(opt_text(song.duration)); }
    append_field(&mut fp, opt_str(song.duration));
    proof { lemma_join_push(fs, opt_text(song.pct_text)); fs = fs.push(opt_text(song.pct_text)); }
    append_field(&mut fp, opt_str(song.pct_text));
    proof { lemma_join_push(fs, font_family@); fs = fs.push(font_family@); }
    append_field(&mut fp, font_family);
    let ghost before_art = fp@;
    proof { lemma_join_push(fs, art_text(song.album_art)); fs = fs.push(art_text(song.album_art)); }
    push_char(&mut fp, '\u{1}');
    match song.album_art {
        Some(art) => {
            fp.append("art-len:");
            let n = art.len();
            push_decimal(&mut fp, n as u64);
        },
        None => {},
    }
    assert(fp@ =~= before_art + seq![field_sep()] + art_text(song.album_art));
    assert(fs =~= all);
    fp
}

/// The response kept for fingerprint `fp`, if the cache holds one.
pub open spec fn cached_for(entry: Option<(Seq<char>, Seq<u8>)>, fp: Seq<char>) -> Option<Seq<u8>> {
    match entry {
        Some((f, bytes)) => if f == fp { Some(bytes) } else { None },
        None => None,
    }
}

/// The last serialized `/api/now` response and the fingerprint it was made for.
pub struct NowCache {
    entry: Option<(String, Vec<u8>)>,
}

impl View for NowCache {
    type V = Option<(Seq<char>, Seq<u8>)>;

    closed spec fn view(&self) -> Option<(Seq<char>, Seq<u8>)> {
        match self.entry {
            Some((f, bytes)) => Some((f@, bytes@)),
            None => None,
        }
    }
}

impl NowCache {
    /// An empty cache.
    pub fn new() -> (res: Self)
        ensures
            res@ is None,
    {
        NowCache { entry: None }
    }

    /// The kept response, when it was made for fingerprint `fp`.
    pub fn lookup(&self, fp: &str) -> (res: Option<&[u8]>)
        ensures
            match res {
                Some(bytes) => cached_for(self@, fp@) == Some(bytes@),
                None => cached_for(self@, fp@) is None,
            },
            res is Some <==> (self@ matches Some((f, _)) && f == fp@),
            res matches Some(bytes) ==> self@ matches Some((_, kept)) && bytes@ == kept,
    {
        match &self.entry {
            Some((f, bytes)) => {
                if crate::text::text_eq(f.as_str(), fp) {
                    Some(bytes.as_slice())
                } else {
                    None
                }
            },
            None => None,
        }
    }

    /// Keeps `bytes` as the response for fingerprint `fp`, in place of
    /// whatever was kept before.
    pub fn store(&mut self, fp: String, bytes: Vec<u8>)
        ensures
            final(self)@ == Some((fp@, bytes@)),
    {
        self.entry = Some((fp, bytes));
    }
}

/// A response just kept is what a lookup with the same fingerprint gives.
pub proof fn law_store_then_lookup(fp: Seq<char>, bytes: Seq<u8>)
    ensures
        cached_for(Some((fp, bytes)), fp) == Some(bytes),
{
}

/// A cache that holds nothing never reports a hit, and a cache that holds
/// a response reports it for its own fingerprint and for no other.
pub proof fn law_hit_only_on_kept_fingerprint(entry: Option<(Seq<char>, Seq<u8>)>, fp: Seq<char>)
    ensures
        entry is None ==> cached_for(entry, fp) is None,
        cached_for(entry, fp) is Some <==> (entry matches Some((f, _)) && f == fp),
        cached_for(entry, fp) matches Some(b) ==> entry matches Some((_, kept)) && b == kept,
{
}

/// After keeping a response, a lookup with another fingerprint finds nothing:
/// one cache entry at a time.
pub proof fn law_store_replaces(fp: Seq<char>, bytes: Seq<u8>, other: Seq<char>)
    requires
        other != fp,
    ensures
        cached_for(Some((fp, bytes)), other) is None,
{
}

/// Only the length of the album art counts: two songs that differ in the
/// art alone, with arts of one byte length, have one fingerprint.
pub proof fn law_art_counts_by_length(song: NowFields, other_art: &str, font_family: &str)
    requires
        song.album_art matches Some(a) && a.len() == other_art.len(),
    ensures
        fingerprint(NowFields { album_art: Some(other_art), ..song }, font_family)
            == fingerprint(song, font_family),
{
    assert(fingerprint_fields(NowFields { album_art: Some(other_art), ..song }, font_family)
        =~= fingerprint_fields(song, font_family));
}

proof fn lemma_split_at_sep(a: Seq<char>, x: Seq<char>, b: Seq<char>, y: Seq<char>)
    requires
        !a.contains(field_sep()),
        !b.contains(field_sep()),
        a + seq![field_sep()] + x == b + seq![field_sep()] + y,
    ensures
        a == b,
        x == y,
{
    let l = a + seq![field_sep()] + x;
    let r = b + seq![field_sep()] + y;
    if a.len() < b.len() {
        assert(l[a.len() as int] == field_sep());
        assert(r[a.len() as int] == b[a.len() as int]);
        assert(b.contains(b[a.len() as int]));
    } else if b.len() < a.len() {
        assert(r[b.len() as int] == field_sep());
        assert(l[b.len() as int] == a[b.len() as int]);
        assert(a.contains(a[b.len() as int]));
    }
    assert(a =~= l.subrange(0, a.len() as int));
    assert(b =~= r.subrange(0, b.len() as int));
    assert(x =~= l.subrange(a.len() as int + 1, l.len() as int));
    assert(y =~= r.subrange(b.len() as int + 1, r.len() as int));
}

proof fn lemma_join_injective(fs: Seq<Seq<char>>, gs: Seq<Seq<char>>)
    requires
        fs.len() == gs.len(),
        fs.len() >= 1,
        forall|i: int| 0 <= i < fs.len() - 1 ==> !(#[trigger] fs[i]).contains(field_sep()),
        forall|i: int| 0 <= i < gs.len() - 1 ==> !(#[trigger] gs[i]).contains(field_sep()),
        join_fields(fs) == join_fields(gs),
    ensures
        fs == gs,
    decreases fs.len(),
{
    if fs.len() == 1 {
        assert(fs =~= gs);
    } else {
        lemma_split_at_sep(fs[0], join_fields(fs.drop_first()), gs[0], join_fields(gs.drop_first()));
        let ft = fs.drop_first();
        let gt = gs.drop_first();
        assert forall|i: int| 0 <= i < ft.len() - 1 implies !(#[trigger] ft[i]).contains(field_sep()) by {
            assert(ft[i] == fs[i + 1]);
        }
        assert forall|i: int| 0 <= i < gt.len() - 1 implies !(#[trigger] gt[i]).contains(field_sep()) by {
            assert(gt[i] == gs[i + 1]);
        }
        lemma_join_injective(ft, gt);
        assert forall|i: int| 0 <= i < fs.len() implies fs[i] == gs[i] by {
            if i > 0 {
                assert(fs[i] == ft[i - 1] && gs[i] == gt[i - 1]);
            }
        }
        assert(fs =~= gs);
    }
}

/// No text field of the song, nor the font, holds the field separator.
pub open spec fn separator_free(song: NowFields, font_family: &str) -> bool {
    &&& !song.title@.contains(field_sep())
    &&& !song.artist@.contains(field_sep())
    &&& !song.album@.contains(field_sep())
    &&& !opt_text(song.position).contains(field_sep())
    &&& !opt_text(song.duration).contains(field_sep())
    &&& !opt_text(song.pct_text).contains(field_sep())
    &&& !font_family@.contains(field_sep())
}

/// Equal fingerprints of separator-free songs agree in every field shown.
proof fn lemma_equal_fingerprints_agree(s1: NowFields, f1: &str, s2: NowFields, f2: &str)
    requires
        separator_free(s1, f1),
        separator_free(s2, f2),
        fingerprint(s1, f1) == fingerprint(s2, f2),
    ensures
        s1.title@ == s2.title@,
        s1.artist@ == s2.artist@,
        s1.album@ == s2.album@,
        s1.is_playing == s2.is_playing,
        opt_text(s1.position) == opt_text(s2.position),
        opt_text(s1.duration) == opt_text(s2.duration),
        opt_text(s1.pct_text) == opt_text(s2.pct_text),
        f1@ == f2@,
        s1.album_art is Some <==> s2.album_art is Some,
        s1.album_art matches Some(a1) ==> s2.album_art matches Some(a2) && a1.len() == a2.len(),
{
    let fs = fingerprint_fields(s1, f1);
    let gs = fingerprint_fields(s2, f2);
    assert(!flag_text(s1.is_playing).contains(field_sep())) by {
        if flag_text(s1.is_playing).contains(field_sep()) {
            let i = choose|i: int| 0 <= i < flag_text(s1.is_playing).len() && flag_text(s1.is_playing)[i] == field_sep();
        }
    }
    assert(!flag_text(s2.is_playing).contains(field_sep())) by {
        if flag_text(s2.is_playing).contains(field_sep()) {
            let i = choose|i: int| 0 <= i < flag_text(s2.is_playing).len() && flag_text(s2.is_playing)[i] == field_sep();
        }
    }
    assert forall|i: int| 0 <= i < fs.len() - 1 implies !(#[trigger] fs[i]).contains(field_sep()) by {}
    assert forall|i: int| 0 <= i < gs.len() - 1 implies !(#[trigger] gs[i]).contains(field_sep()) by {}
    lemma_join_injective(fs, gs);
    assert(fs[3] == gs[3]);
    assert(flag_text(s1.is_playing) == flag_text(s2.is_playing));
    assert(flag_text(s1.is_playing)[0] == flag_text(s2.is_playing)[0]);
    let t1 = art_text(s1.album_art);
    let t2 = art_text(s2.album_art);
    assert(fs[8] == gs[8]);
    assert(t1 == t2);
    let prefix = "art-len:"@;
    match (s1.album_art, s2.album_art) {
        (Some(a1), Some(a2)) => {
            assert(decimal(a1.len() as nat) =~= t1.subrange(prefix.len() as int, t1.len() as int));
            assert(decimal(a2.len() as nat) =~= t2.subrange(prefix.len() as int, t2.len() as int));
            lemma_decimal_injective(a1.len() as nat, a2.len() as nat);
        },
        (Some(a1), None) => {
            assert(t1.len() >= prefix.len());
            reveal_strlit("art-len:");
        },
        (None, Some(a2)) => {
            assert(t2.len() >= prefix.len());
            reveal_strlit("art-len:");
        },
        (None, None) => {},
    }
}

/// The percentage text, where there is one.
pub open spec fn pct_view(o: Option<&str>) -> Option<Seq<char>> {
    match o {
        Some(t) => Some(t@),
        None => None,
    }
}

/// The byte length of the album art, where there is one.
pub open spec fn art_len(o: Option<&str>) -> Option<nat> {
    match o {
        Some(a) => Some(a.len() as nat),
        None => None,
    }
}

/// A percentage, where given, is shown as a text that is not empty.
pub open spec fn pct_nonempty(song: NowFields) -> bool {
    song.pct_text matches Some(p) ==> p@.len() > 0
}

/// Two songs, each with its font, show the same: title, artist, album,
/// playing state, position and duration (an absent one showing as the
/// empty text), percentage, font, and album art of one byte length.
pub open spec fn same_content(s1: NowFields, f1: &str, s2: NowFields, f2: &str) -> bool {
    &&& s1.title@ == s2.title@
    &&& s1.artist@ == s2.artist@
    &&& s1.album@ == s2.album@
    &&& s1.is_playing == s2.is_playing
    &&& opt_text(s1.position) == opt_text(s2.position)
    &&& opt_text(s1.duration) == opt_text(s2.duration)
    &&& pct_view(s1.pct_text) == pct_view(s2.pct_text)
    &&& f1@ == f2@
    &&& art_len(s1.album_art) == art_len(s2.album_art)
}

/// A fingerprint identifies what is shown: where no text holds the
/// separator and a percentage is never shown as the empty text, two songs
/// have one fingerprint exactly when they show the same content.
pub proof fn law_fingerprint_identifies_content(s1: NowFields, f1: &str, s2: NowFields, f2: &str)
    requires
        separator_free(s1, f1),
        separator_free(s2, f2),
        pct_nonempty(s1),
        pct_nonempty(s2),
    ensures
        fingerprint(s1, f1) == fingerprint(s2, f2) <==> same_content(s1, f1, s2, f2),
{
    if fingerprint(s1, f1) == fingerprint(s2, f2) {
        lemma_equal_fingerprints_agree(s1, f1, s2, f2);
        match (s1.pct_text, s2.pct_text) {
            (Some(p1), None) => {
                assert(opt_text(s1.pct_text).len() > 0);
            },
            (None, Some(p2)) => {
                assert(opt_text(s2.pct_text).len() > 0);
            },
            _ => {},
        }
        match (s1.album_art, s2.album_art) {
            (Some(a1), Some(a2)) => {},
            _ => {},
        }
    }
    if same_content(s1, f1, s2, f2) {
        assert(opt_text(s1.pct_text) == opt_text(s2.pct_text));
        assert(art_text(s1.album_art) == art_text(s2.album_art));
        assert(flag_text(s1.is_playing) == flag_text(s2.is_playing));
        assert(fingerprint_fields(s1, f1) =~= fingerprint_fields(s2, f2));
    }
}

} // verus!
