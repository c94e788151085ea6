//! The track model: a file on disk and the tag fields read from it.
use vstd::prelude::*;
use crate::numbers::{decimal_digits, format_decimal, format_pad2, pad2, parse_u32, parse_u32_chars, parse_u32_range};
use crate::text::{ascii_lower_seq, chars_eq, chars_of, copy_range, lower_chars, push_all, string_from};

verus! {

/// A parsed "number/total" value, as in the disc (`TPOS`) and track (`TRCK`) frames.
#[derive(Clone, Copy, PartialEq, Eq, Debug)]
pub struct Count {
    pub number: u32,
    pub total: u32,
}

/// A disc or track count: parsed when the text has the expected shape,
/// kept as written otherwise.
#[derive(Clone, Debug)]
pub enum CountField {
    Valid(Count),
    Invalid(String),
}

pub enum CountFieldView {
    Valid(Count),
    Invalid(Seq<char>),
}

impl View for CountField {
    type V = CountFieldView;

    open spec fn view(&self) -> CountFieldView {
        match self {
            CountField::Valid(c) => CountFieldView::Valid(*c),
            CountField::Invalid(s) => CountFieldView::Invalid(s@),
        }
    }
}

/// The view of an optional text value.
pub open spec fn opt_text(o: Option<String>) -> Option<Seq<char>> {
    match o {
        Some(s) => Some(s@),
        None => None,
    }
}

pub open spec fn opt_count(o: Option<CountField>) -> Option<CountFieldView> {
    match o {
        Some(c) => Some(c@),
        None => None,
    }
}

/// What a count text parses to: `number/total` when both halves read as
/// `u32` values; a bare `number` with `total` 0; anything else is invalid.
pub open spec fn parse_count(s: Seq<char>) -> CountFieldView {
    let k = first_index_of(s, '/');
    if k < 0 {
        match parse_u32(s) {
            Some(n) => CountFieldView::Valid(Count { number: n, total: 0 }),
            None => CountFieldView::Invalid(s),
        }
    } else {
        match (parse_u32(s.subrange(0, k)), parse_u32(s.subrange(k + 1, s.len() as int))) {
            (Some(n), Some(t)) => CountFieldView::Valid(Count { number: n, total: t }),
            _ => CountFieldView::Invalid(s),
        }
    }
}

/// The first position of `c` in `s`, or -1.
pub open spec fn first_index_of(s: Seq<char>, c: char) -> int {
    first_index_from(s, c, 0)
}

pub open spec fn first_index_from(s: Seq<char>, c: char, i: int) -> int
    decreases s.len() - i,
{
    if i < 0 || i >= s.len() {
        -1
    } else if s[i] == c {
        i
    } else {
        first_index_from(s, c, i + 1)
    }
}

/// The last position of `c` in `s[..j]`, or -1.
pub open spec fn last_index_before(s: Seq<char>, c: char, j: int) -> int
    decreases j,
{
    if j <= 0 || j > s.len() {
        -1
    } else if s[j - 1] == c {
        j - 1
    } else {
        last_index_before(s, c, j - 1)
    }
}

pub proof fn lemma_first_index_from(s: Seq<char>, c: char, i: int)
    requires
        0 <= i <= s.len(),
    ensures
        first_index_from(s, c, i) == -1 || (i <= first_index_from(s, c, i) < s.len() && s[first_index_from(s, c, i)] == c),
        forall|k: int| i <= k < s.len() && (first_index_from(s, c, i) == -1 || k < first_index_from(s, c, i)) ==> s[k] != c,
    decreases s.len() - i,
{
    if i < s.len() && s[i] != c {
        lemma_first_index_from(s, c, i + 1);
    }
}

pub proof fn lemma_last_index_before(s: Seq<char>, c: char, j: int)
    requires
        0 <= j <= s.len(),
    ensures
        last_index_before(s, c, j) == -1 || (0 <= last_index_before(s, c, j) < j && s[last_index_before(s, c, j)] == c),
        forall|k: int| last_index_before(s, c, j) < k < j ==> s[k] != c,
    decreases j,
{
    if j > 0 && s[j - 1] != c {
        lemma_last_index_before(s, c, j - 1);
    }
}

pub fn first_index_exec(s: &Vec<char>, c: char) -> (r: Option<usize>)
    ensures
        match r {
            Some(k) => k as int == first_index_of(s@, c) && k < s.len(),
            None => first_index_of(s@, c) == -1,
        },
{
    proof {
        lemma_first_index_from(s@, c, 0);
    }
    let mut i: usize = 0;
    while i < s.len()
        invariant
            i <= s.len(),
            first_index_of(s@, c) == first_index_from(s@, c, i as int),
        decreases s.len() - i,
    {
        if s[i] == c {
            return Some(i);
        }
        i = i + 1;
    }
    None
}

pub fn last_index_exec(s: &Vec<char>, c: char) -> (r: Option<usize>)
    ensures
        match r {
            Some(k) => k as int == last_index_before(s@, c, s@.len() as int) && k < s.len(),
            None => last_index_before(s@, c, s@.len() as int) == -1,
        },
{
    let mut j: usize = s.len();
    while j > 0
        invariant
            j <= s.len(),
            last_index_before(s@, c, s@.len() as int) == last_index_before(s@, c, j as int),
        decreases j,
    {
        if s[j - 1] == c {
            return Some(j - 1);
        }
        j = j - 1;
    }
    None
}

impl CountField {
    /// Reads a disc or track count such as `2/4`, `01/10` or `5`.
    pub fn parse(s: &str) -> (r: CountField)
        ensures
            r@ == parse_count(s@),
    {
        let v = chars_of(s);
        match first_index_exec(&v, '/') {
            None => match parse_u32_chars(&v) {
                Some(n) => CountField::Valid(Count { number: n, total: 0 }),
                None => CountField::Invalid(string_from(s)),
            },
            Some(k) => {
                let a = parse_u32_range(&v, 0, k);
                let b = parse_u32_range(&v, k + 1, v.len());
                match (a, b) {
                    (Some(n), Some(t)) => CountField::Valid(Count { number: n, total: t }),
                    _ => CountField::Invalid(string_from(s)),
                }
            },
        }
    }
}

/// The text fields of a track's tag, each absent when the tag lacks it.
#[derive(Clone, Debug)]
pub struct TrackFields {
    pub media_hash: Option<String>,
    pub artist: Option<String>,
    pub title: Option<String>,
    pub album: Option<String>,
    pub remixer: Option<String>,
    pub publisher: Option<String>,
    pub catalog_id: Option<String>,
    pub year: Option<String>,
    pub genre: Option<String>,
    pub key: Option<String>,
    pub bpm: Option<String>,
    pub disc: Option<CountField>,
    pub track: Option<CountField>,
}

pub struct FieldsView {
    pub media_hash: Option<Seq<char>>,
    pub artist: Option<Seq<char>>,
    pub title: Option<Seq<char>>,
    pub album: Option<Seq<char>>,
    pub remixer: Option<Seq<char>>,
    pub publisher: Option<Seq<char>>,
    pub catalog_id: Option<Seq<char>>,
    pub year: Option<Seq<char>>,
    pub genre: Option<Seq<char>>,
    pub key: Option<Seq<char>>,
    pub bpm: Option<Seq<char>>,
    pub disc: Option<CountFieldView>,
    pub track: Option<CountFieldView>,
}

impl View for TrackFields {
    type V = FieldsView;

    open spec fn view(&self) -> FieldsView {
        FieldsView {
            media_hash: opt_text(self.media_hash),
            artist: opt_text(self.artist),
            title: opt_text(self.title),
            album: opt_text(self.album),
            remixer: opt_text(self.remixer),
            publisher: opt_text(self.publisher),
            catalog_id: opt_text(self.catalog_id),
            year: opt_text(self.year),
            genre: opt_text(self.genre),
            key: opt_text(self.key),
            bpm: opt_text(self.bpm),
            disc: opt_count(self.disc),
            track: opt_count(self.track),
        }
    }
}

impl TrackFields {
    /// A set of fields with every field absent.
    pub fn empty() -> (r: TrackFields)
        ensures
            r@ == (FieldsView {
                media_hash: None,
                artist: None,
                title: None,
                album: None,
                remixer: None,
                publisher: None,
                catalog_id: None,
                year: None,
                genre: None,
                key: None,
                bpm: None,
                disc: None,
                track: None,
            }),
    {
        TrackFields {
            media_hash: None,
            artist: None,
            title: None,
            album: None,
            remixer: None,
            publisher: None,
            catalog_id: None,
            year: None,
            genre: None,
            key: None,
            bpm: None,
            disc: None,
            track: None,
        }
    }
}

/// Where a track lives on disk.
#[derive(Clone, Debug)]
pub struct TrackFile {
    /// The path, with `/` between its parts.
    pub file_path: String,
    /// The file's modification time, in seconds.
    pub mtime: u64,
}

/// A track: its file and its tag fields.
#[derive(Clone, Debug)]
pub struct Track {
    pub file: TrackFile,
    pub fields: TrackFields,
}

pub struct TrackView {
    pub file_path: Seq<char>,
    pub mtime: u64,
    pub fields: FieldsView,
}

impl View for Track {
    type V = TrackView;

    open spec fn view(&self) -> TrackView {
        TrackView { file_path: self.file.file_path@, mtime: self.file.mtime, fields: self.fields@ }
    }
}

/// The parts of a path: the text between `/` separators, leaving out empty
/// parts and `.` parts, as `Path::components` reads a relative path.
pub open spec fn path_segments(p: Seq<char>) -> Seq<Seq<char>> {
    segments_from(p, 0, Seq::empty(), Seq::empty())
}

pub open spec fn flush_segment(acc: Seq<Seq<char>>, cur: Seq<char>) -> Seq<Seq<char>> {
    if cur.len() == 0 || cur == seq!['.'] {
        acc
    } else {
        acc.push(cur)
    }
}

pub open spec fn segments_from(
    p: Seq<char>,
    i: int,
    cur: Seq<char>,
    acc: Seq<Seq<char>>,
) -> Seq<Seq<char>>
    decreases p.len() - i,
{
    if i < 0 || i >= p.len() {
        flush_segment(acc, cur)
    } else if p[i] == '/' {
        segments_from(p, i + 1, Seq::empty(), flush_segment(acc, cur))
    } else {
        segments_from(p, i + 1, cur.push(p[i]), acc)
    }
}

/// `Path::file_name`: the last part, unless that part is `..`.
pub open spec fn file_name(p: Seq<char>) -> Option<Seq<char>> {
    let s = path_segments(p);
    if s.len() == 0 || s.last() == seq!['.', '.'] {
        None
    } else {
        Some(s.last())
    }
}

/// `Path::extension` of a file name: the text after its last `.`, where that
/// `.` is not the name's first character.
pub open spec fn name_extension(name: Seq<char>) -> Option<Seq<char>> {
    let k = last_index_before(name, '.', name.len() as int);
    if k <= 0 {
        None
    } else {
        Some(name.subrange(k + 1, name.len() as int))
    }
}

/// `Path::extension`.
pub open spec fn path_extension(p: Seq<char>) -> Option<Seq<char>> {
    match file_name(p) {
        Some(n) => name_extension(n),
        None => None,
    }
}

/// `Path::ends_with`: the parts of `child` are the last parts of `base`.
pub open spec fn path_ends_with(base: Seq<char>, child: Seq<char>) -> bool {
    let b = path_segments(base);
    let c = path_segments(child);
    c.len() <= b.len() && b.subrange(b.len() - c.len(), b.len() as int) == c
}

pub fn path_segments_exec(p: &Vec<char>) -> (r: Vec<Vec<char>>)
    ensures
        r@.map_values(|v: Vec<char>| v@) == path_segments(p@),
{
    let mut acc: Vec<Vec<char>> = Vec::new();
    let mut cur: Vec<char> = Vec::new();
    let mut i: usize = 0;
    assert(acc@.map_values(|v: Vec<char>| v@) =~= Seq::<Seq<char>>::empty());
    assert(cur@ =~= Seq::<char>::empty());
    while i < p.len()
        invariant
            i <= p.len(),
            segments_from(p@, 0, Seq::empty(), Seq::empty()) == segments_from(
                p@,
                i as int,
                cur@,
                acc@.map_values(|v: Vec<char>| v@),
            ),
        decreases p.len() - i,
    {
        if p[i] == '/' {
            let is_dot = cur.len() == 1 && cur[0] == '.';
            proof {
                if cur@.len() == 1 && cur@[0] == '.' {
                    assert(cur@ =~= seq!['.']);
                }
            }
            if cur.len() > 0 && !is_dot {
                let ghost old_acc = acc@;
                acc.push(cur);
                assert(acc@.map_values(|v: Vec<char>| v@) =~= old_acc.map_values(
                    |v: Vec<char>| v@,
                ).push(cur@));
            }
            cur = Vec::new();
            assert(cur@ =~= Seq::<char>::empty());
        } else {
            cur.push(p[i]);
        }
        i = i + 1;
    }
    let is_dot = cur.len() == 1 && cur[0] == '.';
    proof {
        if cur@.len() == 1 && cur@[0] == '.' {
            assert(cur@ =~= seq!['.']);
        }
    }
    if cur.len() > 0 && !is_dot {
        let ghost old_acc = acc@;
        acc.push(cur);
        assert(acc@.map_values(|v: Vec<char>| v@) =~= old_acc.map_values(|v: Vec<char>| v@).push(
            cur@,
        ));
    }
    acc
}

/// `Path::extension` of the path `p`.
pub fn path_extension_exec(p: &Vec<char>) -> (r: Option<Vec<char>>)
    ensures
        match r {
            Some(e) => path_extension(p@) == Some(e@),
            None => path_extension(p@) is None,
        },
{
    let segs = path_segments_exec(p);
    let ghost sv = segs@.map_values(|v: Vec<char>| v@);
    if segs.len() == 0 {
        return None;
    }
    let last = &segs[segs.len() - 1];
    assert(sv.last() == last@);
    if last.len() == 2 && last[0] == '.' && last[1] == '.' {
        assert(last@ =~= seq!['.', '.']);
        return None;
    }
    assert(last@ != seq!['.', '.']) by {
        if last@ == seq!['.', '.'] {
            assert(last@.len() == 2 && last@[0] == '.' && last@[1] == '.');
        }
    }
    match last_index_exec(last, '.') {
        None => None,
        Some(k) => {
            if k == 0 {
                None
            } else {
                Some(copy_range(last, k + 1, last.len()))
            }
        },
    }
}

/// `Path::ends_with`.
pub fn path_ends_with_exec(base: &Vec<char>, child: &Vec<char>) -> (r: bool)
    ensures
        r == path_ends_with(base@, child@),
{
    let b = path_segments_exec(base);
    let c = path_segments_exec(child);
    let ghost bv = b@.map_values(|v: Vec<char>| v@);
    let ghost cv = c@.map_values(|v: Vec<char>| v@);
    if c.len() > b.len() {
        return false;
    }
    let off = b.len() - c.len();
    let mut i: usize = 0;
    while i < c.len()
        invariant
            c.len() <= b.len(),
            off == b.len() - c.len(),
            i <= c.len(),
            bv == b@.map_values(|v: Vec<char>| v@),
            cv == c@.map_values(|v: Vec<char>| v@),
            bv == path_segments(base@),
            cv == path_segments(child@),
            forall|k: int| 0 <= k < i ==> bv[off + k] == cv[k],
        decreases c.len() - i,
    {
        if !chars_eq(&b[off + i], &c[i]) {
            assert(bv.len() == b.len() && cv.len() == c.len());
            assert(bv.subrange(off as int, bv.len() as int)[i as int] != cv[i as int]);
            assert(bv.subrange(off as int, bv.len() as int) != cv);
            return false;
        }
        i = i + 1;
    }
    assert(bv.subrange(off as int, bv.len() as int) =~= cv);
    true
}

/// The path at which a track belongs, built from its tags:
/// `Publisher/[CAT] Album/Disc N/NN. [Key] Artist - Title.ext`. The publisher
/// part is left out when there is no publisher, the catalog number when there
/// is none, and the album part reads `[+singles]` when there is no album. The
/// disc part is there only for a parsed disc count with more than one disc; the
/// track number, zero-padded to two digits, only for a parsed track count; the
/// key only when there is one. The extension is the file's own, in lower case.
pub open spec fn canonical_path(t: TrackView) -> Seq<char> {
    publisher_part(t.fields) + album_part(t.fields) + seq!['/'] + disc_part(t.fields) + track_part(
        t.fields,
    ) + key_part(t.fields) + or_empty(t.fields.artist) + seq![' ', '-', ' '] + or_empty(
        t.fields.title,
    ) + extension_part(t.file_path)
}

pub open spec fn or_empty(o: Option<Seq<char>>) -> Seq<char> {
    match o {
        Some(s) => s,
        None => Seq::empty(),
    }
}

pub open spec fn publisher_part(f: FieldsView) -> Seq<char> {
    match f.publisher {
        Some(p) => p + seq!['/'],
        None => Seq::empty(),
    }
}

pub open spec fn album_part(f: FieldsView) -> Seq<char> {
    match f.album {
        Some(a) => match f.catalog_id {
            Some(c) => seq!['['] + c + seq![']', ' '] + a,
            None => a,
        },
        None => seq!['[', '+', 's', 'i', 'n', 'g', 'l', 'e', 's', ']'],
    }
}

pub open spec fn disc_part(f: FieldsView) -> Seq<char> {
    match f.disc {
        Some(CountFieldView::Valid(c)) => if c.total > 1 {
            seq!['D', 'i', 's', 'c', ' '] + decimal_digits(c.number as nat) + seq!['/']
        } else {
            Seq::empty()
        },
        _ => Seq::empty(),
    }
}

pub open spec fn track_part(f: FieldsView) -> Seq<char> {
    match f.track {
        Some(CountFieldView::Valid(c)) => pad2(c.number as nat) + seq!['.', ' '],
        _ => Seq::empty(),
    }
}

pub open spec fn key_part(f: FieldsView) -> Seq<char> {
    match f.key {
        Some(k) => seq!['['] + k + seq![']', ' '],
        None => Seq::empty(),
    }
}

pub open spec fn extension_part(p: Seq<char>) -> Seq<char> {
    match path_extension(p) {
        Some(e) => seq!['.'] + ascii_lower_seq(e),
        None => Seq::empty(),
    }
}

fn push_opt(out: &mut Vec<char>, o: &Option<String>)
    ensures
        final(out)@ == old(out)@ + or_empty(opt_text(*o)),
{
    match o {
        Some(s) => {
            let v = chars_of(s.as_str());
            push_all(out, &v);
        },
        None => {
            assert(old(out)@ + Seq::<char>::empty() =~= old(out)@);
        },
    }
}

fn push_publisher(out: &mut Vec<char>, f: &TrackFields)
    ensures
        final(out)@ == old(out)@ + publisher_part(f@),
{
    match &f.publisher {
        Some(p) => {
            push_all(out, &chars_of(p.as_str()));
            out.push('/');
            assert(out@ =~= old(out)@ + publisher_part(f@));
        },
        None => {
            assert(out@ =~= old(out)@ + publisher_part(f@));
        },
    }
}

fn push_album(out: &mut Vec<char>, f: &TrackFields)
    ensures
        final(out)@ == old(out)@ + album_part(f@),
{
    match &f.album {
        Some(a) => {
            match &f.catalog_id {
                Some(c) => {
                    out.push('[');
                    push_all(out, &chars_of(c.as_str()));
                    out.push(']');
                    out.push(' ');
                },
                None => {},
            }
            push_all(out, &chars_of(a.as_str()));
            assert(out@ =~= old(out)@ + album_part(f@));
        },
        None => {
            let s = chars_of("[+singles]");
            proof {
                reveal_strlit("[+singles]");
            }
            assert(s@ =~= seq!['[', '+', 's', 'i', 'n', 'g', 'l', 'e', 's', ']']);
            push_all(out, &s);
        },
    }
}

fn push_disc(out: &mut Vec<char>, f: &TrackFields)
    ensures
        final(out)@ == old(out)@ + disc_part(f@),
{
    match &f.disc {
        Some(CountField::Valid(c)) => {
            if c.total > 1 {
                out.push('D');
                out.push('i');
                out.push('s');
                out.push('c');
                out.push(' ');
                push_all(out, &format_decimal(c.number));
                out.push('/');
            }
        },
        _ => {},
    }
    assert(out@ =~= old(out)@ + disc_part(f@));
}

fn push_track(out: &mut Vec<char>, f: &TrackFields)
    ensures
        final(out)@ == old(out)@ + track_part(f@),
{
    match &f.track {
        Some(CountField::Valid(c)) => {
            push_all(out, &format_pad2(c.number));
            out.push('.');
            out.push(' ');
        },
        _ => {},
    }
    assert(out@ =~= old(out)@ + track_part(f@));
}

fn push_key(out: &mut Vec<char>, f: &TrackFields)
    ensures
        final(out)@ == old(out)@ + key_part(f@),
{
    match &f.key {
        Some(k) => {
            out.push('[');
            push_all(out, &chars_of(k.as_str()));
            out.push(']');
            out.push(' ');
        },
        None => {},
    }
    assert(out@ =~= old(out)@ + key_part(f@));
}

fn push_extension(out: &mut Vec<char>, path: &Vec<char>)
    ensures
        final(out)@ == old(out)@ + extension_part(path@),
{
    match path_extension_exec(path) {
        Some(e) => {
            out.push('.');
            push_all(out, &lower_chars(&e));
        },
        None => {},
    }
    assert(out@ =~= old(out)@ + extension_part(path@));
}

impl Track {
    /// The path at which this track belongs (see `canonical_path`).
    pub fn canonical_path(&self) -> (r: Vec<char>)
        ensures
            r@ == canonical_path(self@),
    {
        let f = &self.fields;
        let mut out: Vec<char> = Vec::new();
        push_publisher(&mut out, f);
        push_album(&mut out, f);
        out.push('/');
        push_disc(&mut out, f);
        push_track(&mut out, f);
        push_key(&mut out, f);
        push_opt(&mut out, &f.artist);
        out.push(' ');
        out.push('-');
        out.push(' ');
        push_opt(&mut out, &f.title);
        let path = chars_of(self.file.file_path.as_str());
        push_extension(&mut out, &path);
        assert(out@ =~= canonical_path(self@));
        out
    }
}

/// A track of a parsed disc count with two discs or more belongs in a
/// `Disc N` folder, `N` its disc number, right below its album folder.
pub proof fn law_multi_disc_folder(t: TrackView, c: Count)
    requires
        t.fields.disc == Some(CountFieldView::Valid(c)),
        c.total >= 2,
    ensures
        ({
            let head = publisher_part(t.fields) + album_part(t.fields) + seq!['/'];
            let folder = seq!['D', 'i', 's', 'c', ' '] + decimal_digits(c.number as nat) + seq!['/'];
            canonical_path(t).subrange(0, (head.len() + folder.len()) as int) == head + folder
        }),
{
    let head = publisher_part(t.fields) + album_part(t.fields) + seq!['/'];
    let folder = seq!['D', 'i', 's', 'c', ' '] + decimal_digits(c.number as nat) + seq!['/'];
    let rest = track_part(t.fields) + key_part(t.fields) + or_empty(t.fields.artist) + seq![
        ' ',
        '-',
        ' ',
    ] + or_empty(t.fields.title) + extension_part(t.file_path);
    assert(canonical_path(t) =~= (head + folder) + rest);
    assert(((head + folder) + rest).subrange(0, (head.len() + folder.len()) as int) =~= head + folder);
}

/// A track with no parsed disc count, or one of a single disc, has no disc
/// folder: its file sits right below its album folder.
pub proof fn law_single_disc_no_folder(t: TrackView)
    requires
        !(t.fields.disc matches Some(CountFieldView::Valid(c)) && c.total >= 2),
    ensures
        canonical_path(t) == publisher_part(t.fields) + album_part(t.fields) + seq!['/']
            + track_part(t.fields) + key_part(t.fields) + or_empty(t.fields.artist) + seq![
            ' ',
            '-',
            ' ',
        ] + or_empty(t.fields.title) + extension_part(t.file_path),
{
    assert(disc_part(t.fields) =~= Seq::<char>::empty());
    assert(canonical_path(t) =~= publisher_part(t.fields) + album_part(t.fields) + seq!['/']
        + track_part(t.fields) + key_part(t.fields) + or_empty(t.fields.artist) + seq![
        ' ',
        '-',
        ' ',
    ] + or_empty(t.fields.title) + extension_part(t.file_path));
}

/// The album folder of a track: `[CAT] Album` with a catalog number,
/// `Album` without, `[+singles]` when there is no album.
pub open spec fn album_folder(f: FieldsView) -> Seq<char> {
    match f.album {
        Some(a) => match f.catalog_id {
            Some(c) => seq!['['] + c + seq![']', ' '] + a + seq!['/'],
            None => a + seq!['/'],
        },
        None => seq!['[', '+', 's', 'i', 'n', 'g', 'l', 'e', 's', ']', '/'],
    }
}

/// The publisher folder of a track, when it has a publisher.
pub open spec fn publisher_folder(f: FieldsView) -> Seq<char> {
    match f.publisher {
        Some(p) => p + seq!['/'],
        None => Seq::<char>::empty(),
    }
}

proof fn lemma_album_folder(f: FieldsView)
    ensures
        album_part(f) + seq!['/'] == album_folder(f),
{
    match f.album {
        Some(a) => match f.catalog_id {
            Some(c) => {
                assert(album_part(f) + seq!['/'] =~= album_folder(f));
            },
            None => {
                assert(album_part(f) + seq!['/'] =~= album_folder(f));
            },
        },
        None => {
            assert(album_part(f) + seq!['/'] =~= album_folder(f));
        },
    }
}

/// The folders of a track's canonical path: its publisher's folder when it
/// has a publisher, then its album folder.
pub proof fn law_canonical_folders(t: TrackView)
    ensures
        canonical_path(t).subrange(
            0,
            (publisher_folder(t.fields).len() + album_folder(t.fields).len()) as int,
        ) == publisher_folder(t.fields) + album_folder(t.fields),
{
    let f = t.fields;
    lemma_album_folder(f);
    assert(publisher_part(f) == publisher_folder(f));
    let head = publisher_folder(f) + album_folder(f);
    let rest = disc_part(f) + track_part(f) + key_part(f) + or_empty(f.artist) + seq![' ', '-', ' ']
        + or_empty(f.title) + extension_part(t.file_path);
    assert(canonical_path(t) =~= head + rest);
    assert((head + rest).subrange(0, head.len() as int) =~= head);
}

/// A canonical path ends with the file's own extension, in ASCII lower
/// case, after a `.`; and, before it, with `Artist - Title`.
pub proof fn law_canonical_name_end(t: TrackView)
    ensures
        ({
            let ext = match path_extension(t.file_path) {
                Some(e) => seq!['.'] + ascii_lower_seq(e),
                None => Seq::<char>::empty(),
            };
            let tail = or_empty(t.fields.artist) + seq![' ', '-', ' '] + or_empty(t.fields.title)
                + ext;
            let p = canonical_path(t);
            p.len() >= tail.len() && p.subrange(p.len() - tail.len(), p.len() as int) == tail
        }),
{
    let f = t.fields;
    let ext = extension_part(t.file_path);
    let tail = or_empty(f.artist) + seq![' ', '-', ' '] + or_empty(f.title) + ext;
    let head = publisher_part(f) + album_part(f) + seq!['/'] + disc_part(f) + track_part(f)
        + key_part(f);
    assert(canonical_path(t) =~= head + tail);
    assert((head + tail).subrange(head.len() as int, (head + tail).len() as int) =~= tail);
}

/// The file name of a canonical path starts with the track number, padded
/// to two digits, and `. `, for a parsed track count, and with `[Key] ` for
/// a track with a key.
pub proof fn law_canonical_number_and_key(t: TrackView)
    ensures
        ({
            let f = t.fields;
            let dir = publisher_part(f) + album_part(f) + seq!['/'] + disc_part(f);
            let num = match f.track {
                Some(CountFieldView::Valid(c)) => if c.number < 10 {
                    seq!['0', (('0' as int) + c.number) as char, '.', ' ']
                } else {
                    decimal_digits(c.number as nat) + seq!['.', ' ']
                },
                _ => Seq::<char>::empty(),
            };
            let key = match f.key {
                Some(k) => seq!['['] + k + seq![']', ' '],
                None => Seq::<char>::empty(),
            };
            let p = canonical_path(t);
            p.subrange(dir.len() as int, (dir.len() + num.len() + key.len()) as int) == num + key
        }),
{
    let f = t.fields;
    let dir = publisher_part(f) + album_part(f) + seq!['/'] + disc_part(f);
    let rest = or_empty(f.artist) + seq![' ', '-', ' '] + or_empty(f.title) + extension_part(
        t.file_path,
    );
    assert(canonical_path(t) =~= dir + (track_part(f) + key_part(f)) + rest);
    assert((dir + (track_part(f) + key_part(f)) + rest).subrange(
        dir.len() as int,
        (dir.len() + track_part(f).len() + key_part(f).len()) as int,
    ) =~= track_part(f) + key_part(f));
    match f.track {
        Some(CountFieldView::Valid(c)) => {
            if c.number < 10 {
                assert(track_part(f) =~= seq!['0', (('0' as int) + c.number) as char, '.', ' ']);
            } else {
                assert(track_part(f) =~= decimal_digits(c.number as nat) + seq!['.', ' ']);
            }
        },
        _ => {},
    }
}

} // verus!
