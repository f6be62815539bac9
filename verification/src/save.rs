//! Naming and encoding the saved screenshots.

use vstd::prelude::*;
use crate::text::{
    push_decimal, push_zero_padded, decimal, zero_padded, digit_char, lemma_two_digits,
    lemma_three_digits, lemma_four_digits,
};
use crate::hotkey::join_path;

verus! {

/// The directory, under the user's home, where screenshots are saved.
pub const SAVE_DIR_NAME: &'static str = "Pictures/MintShot";

/// How many numbered names are tried after the plain one is taken.
pub const MAX_NAME_COUNTER: u32 = 9999;

/// The local date and time of a capture, to the nanosecond.
#[derive(Debug, Clone, Copy)]
pub struct Timestamp {
    pub year: i32,
    pub month: u32,
    pub day: u32,
    pub hour: u32,
    pub minute: u32,
    pub second: u32,
    /// Nanoseconds since the second began; 1 000 000 000 and above during a
    /// leap second.
    pub nanosecond: u32,
}

impl Timestamp {
    /// The fields are those of a calendar date and a time of day.
    pub open spec fn wf(&self) -> bool {
        &&& 1 <= self.month <= 12
        &&& 1 <= self.day <= 31
        &&& self.hour < 24
        &&& self.minute < 60
        &&& self.second < 60
        &&& self.nanosecond < 2_000_000_000
    }
}

/// A year with four digits, zero-padded; outside 0..=9999 with its sign.
pub open spec fn year_text(year: i32) -> Seq<char> {
    if 0 <= year <= 9999 {
        zero_padded(year as nat, 4)
    } else if year > 9999 {
        seq!['+'] + zero_padded(year as nat, 4)
    } else {
        seq!['-'] + zero_padded((-year) as nat, 4)
    }
}

/// The time stamp of a file name: `YYYYMMDD_HHMMSS.mmm`. A leap second
/// shows as second 60.
pub open spec fn stamp_text(t: Timestamp) -> Seq<char> {
    year_text(t.year) + zero_padded(t.month as nat, 2) + zero_padded(t.day as nat, 2) + "_"@
        + zero_padded(t.hour as nat, 2) + zero_padded(t.minute as nat, 2) + zero_padded(
        (t.second + t.nanosecond / 1_000_000_000) as nat,
        2,
    ) + "."@ + zero_padded((t.nanosecond / 1_000_000 % 1000) as nat, 3)
}

/// The plain name of a screenshot taken at `t`.
pub open spec fn plain_file_name(t: Timestamp) -> Seq<char> {
    "mintshot_"@ + stamp_text(t) + ".png"@
}

/// The numbered name of a screenshot taken at `t`, for when the plain one
/// is taken.
pub open spec fn numbered_file_name(t: Timestamp, counter: u32) -> Seq<char> {
    "mintshot_"@ + stamp_text(t) + "_"@ + decimal(counter as nat) + ".png"@
}

/// Appends the time stamp of a file name.
fn push_stamp(s: &mut String, t: &Timestamp)
    requires
        t.wf(),
    ensures
        final(s)@ == old(s)@ + stamp_text(*t),
{
    let ghost start = s@;
    if 0 <= t.year && t.year <= 9999 {
        push_zero_padded(s, t.year as u64, 4);
    } else if t.year > 9999 {
        s.append("+");
        push_zero_padded(s, t.year as u64, 4);
    } else {
        s.append("-");
        let magnitude: u64 = (-(t.year as i64)) as u64;
        push_zero_padded(s, magnitude, 4);
    }
    proof {
        reveal_strlit("+");
        reveal_strlit("-");
    }
    assert(s@ =~= start + year_text(t.year));
    push_zero_padded(s, t.month as u64, 2);
    push_zero_padded(s, t.day as u64, 2);
    s.append("_");
    push_zero_padded(s, t.hour as u64, 2);
    push_zero_padded(s, t.minute as u64, 2);
    push_zero_padded(s, (t.second + t.nanosecond / 1_000_000_000) as u64, 2);
    s.append(".");
    push_zero_padded(s, (t.nanosecond / 1_000_000 % 1000) as u64, 3);
    assert(s@ =~= start + stamp_text(*t));
}

/// The name of a screenshot taken at `t`: `mintshot_<stamp>.png`.
pub fn generate_filename(t: &Timestamp) -> (name: String)
    requires
        t.wf(),
    ensures
        name@ == plain_file_name(*t),
{
    let mut s = String::from_str("mintshot_");
    push_stamp(&mut s, t);
    s.append(".png");
    s
}

/// The name to try when the plain one is taken: `mintshot_<stamp>_<n>.png`.
pub fn numbered_filename(t: &Timestamp, counter: u32) -> (name: String)
    requires
        t.wf(),
    ensures
        name@ == numbered_file_name(*t, counter),
{
    let mut s = String::from_str("mintshot_");
    push_stamp(&mut s, t);
    s.append("_");
    push_decimal(&mut s, counter as u64);
    s.append(".png");
    s
}

/// The directory where screenshots are saved, under the home directory; an
/// error when the home directory is unknown.
pub fn save_dir(home: &Option<String>) -> (r: Result<String, String>)
    ensures
        home is None ==> (r matches Err(m) && m@ == "Cannot determine home directory"@),
        home matches Some(h) ==> (r matches Ok(d) && d@ == join_path(h@, SAVE_DIR_NAME@)),
{
    match home {
        Some(h) => Ok(crate::hotkey::join_dir(h.as_str(), SAVE_DIR_NAME)),
        None => Err(String::from_str("Cannot determine home directory")),
    }
}

/// What creating a file of a given name came to.
#[derive(Debug)]
pub enum CreateOutcome {
    /// The file was created; it did not exist before.
    Created,
    /// A file of that name exists already.
    AlreadyExists,
    /// Creating the file failed for another reason.
    Failed(String),
}

/// What to do next to create a file of a fresh name.
#[derive(Debug)]
pub enum UniqueFileStep {
    /// Try to create a new file of this name in the save directory.
    TryName(String),
    /// The file was created.
    Done,
    /// Give up with this message.
    Fail(String),
}

/// Decides the next step of creating a file whose name no other file has.
///
/// The plain name is tried first (attempt 0), then the numbered names 1 to
/// 9999 in turn while each is taken. Each name is created only if it does
/// not exist, so two captures in the same millisecond never write to one
/// file. Any failure other than a taken name ends the search.
pub fn create_unique_file(t: &Timestamp, attempt: u32, outcome: Option<CreateOutcome>) -> (step:
    UniqueFileStep)
    requires
        t.wf(),
        attempt <= MAX_NAME_COUNTER,
    ensures
        match outcome {
            None => step matches UniqueFileStep::TryName(n) && n@ == plain_file_name(*t),
            Some(CreateOutcome::Created) => step is Done,
            Some(CreateOutcome::Failed(m)) => step matches UniqueFileStep::Fail(f) && f@ == m@,
            Some(CreateOutcome::AlreadyExists) => if attempt < MAX_NAME_COUNTER {
                step matches UniqueFileStep::TryName(n) && n@ == numbered_file_name(
                    *t,
                    (attempt + 1) as u32,
                )
            } else {
                step matches UniqueFileStep::Fail(f) && f@
                    == "Cannot create a unique filename after 9 999 attempts"@
            },
        },
{
    match outcome {
        None => UniqueFileStep::TryName(generate_filename(t)),
        Some(CreateOutcome::Created) => UniqueFileStep::Done,
        Some(CreateOutcome::Failed(m)) => UniqueFileStep::Fail(m),
        Some(CreateOutcome::AlreadyExists) => {
            if attempt < MAX_NAME_COUNTER {
                UniqueFileStep::TryName(numbered_filename(t, attempt + 1))
            } else {
                UniqueFileStep::Fail(
                    String::from_str("Cannot create a unique filename after 9 999 attempts"),
                )
            }
        },
    }
}

/// Different numbers give different decimal texts.
proof fn lemma_decimal_injective(a: nat, b: nat)
    requires
        decimal(a) == decimal(b),
    ensures
        a == b,
    decreases a,
{
    if a >= 10 && b >= 10 {
        let da = decimal(a / 10);
        let db = decimal(b / 10);
        assert(decimal(a) == da.push(crate::text::digit_char(a % 10)));
        assert(decimal(b) == db.push(crate::text::digit_char(b % 10)));
        assert(da =~= decimal(a).drop_last());
        assert(db =~= decimal(b).drop_last());
        lemma_decimal_injective(a / 10, b / 10);
        assert(decimal(a).last() == decimal(b).last());
        assert(decimal(a).last() == crate::text::digit_char(a % 10));
        assert(decimal(b).last() == crate::text::digit_char(b % 10));
        lemma_digit_char_injective(a % 10, b % 10);
    } else if a >= 10 {
        crate::text::lemma_decimal_nonempty(a);
        assert(decimal(a).len() >= 2);
    } else if b >= 10 {
        crate::text::lemma_decimal_nonempty(b);
        assert(decimal(b).len() >= 2);
    } else {
        assert(decimal(a) == seq![crate::text::digit_char(a)]);
        assert(decimal(b) == seq![crate::text::digit_char(b)]);
        assert(decimal(a)[0] == decimal(b)[0]);
        assert(decimal(a)[0] == crate::text::digit_char(a));
        assert(decimal(b)[0] == crate::text::digit_char(b));
        lemma_digit_char_injective(a, b);
    }
}

proof fn lemma_digit_char_injective(a: nat, b: nat)
    requires
        a < 10,
        b < 10,
        crate::text::digit_char(a) == crate::text::digit_char(b),
    ensures
        a == b,
{
}

/// The names tried for one capture are all different: the plain name from
/// every numbered one, and numbered ones from each other. So the search for
/// a free name never tries a name twice.
pub proof fn lemma_file_names_distinct(t: Timestamp, c1: u32, c2: u32)
    ensures
        plain_file_name(t) != numbered_file_name(t, c1),
        c1 != c2 ==> numbered_file_name(t, c1) != numbered_file_name(t, c2),
{
    crate::text::lemma_decimal_nonempty(c1 as nat);
    assert(plain_file_name(t).len() < numbered_file_name(t, c1).len());
    if c1 != c2 && numbered_file_name(t, c1) == numbered_file_name(t, c2) {
        let start: int = ("mintshot_"@.len() + stamp_text(t).len() + "_"@.len()) as int;
        let d1 = decimal(c1 as nat);
        let d2 = decimal(c2 as nat);
        assert(d1.len() == d2.len());
        assert(numbered_file_name(t, c1).subrange(start, start + d1.len() as int) =~= d1);
        assert(numbered_file_name(t, c2).subrange(start, start + d2.len() as int) =~= d2);
        lemma_decimal_injective(c1 as nat, c2 as nat);
    }
}

/// The plain name shows the capture time field by field, as
/// `mintshot_YYYYMMDD_HHMMSS.mmm.png` with the 24-hour clock: each field's
/// digits stand at their fixed place, a leap second showing as second 60
/// and the fraction as whole milliseconds. So names of one day sort by the
/// time they were taken.
pub proof fn lemma_plain_name_layout(t: Timestamp)
    requires
        t.wf(),
        0 <= t.year <= 9999,
    ensures
        ({
            let n = plain_file_name(t);
            let y = t.year as nat;
            let sec = (t.second + t.nanosecond / 1_000_000_000) as nat;
            let ms = (t.nanosecond / 1_000_000 % 1000) as nat;
            &&& n.len() == 32
            &&& n.subrange(0, 9) == "mintshot_"@
            &&& n[9] == digit_char(y / 1000) && n[10] == digit_char(y / 100 % 10)
            &&& n[11] == digit_char(y / 10 % 10) && n[12] == digit_char(y % 10)
            &&& n[13] == digit_char((t.month / 10) as nat) && n[14] == digit_char((t.month % 10) as nat)
            &&& n[15] == digit_char((t.day / 10) as nat) && n[16] == digit_char((t.day % 10) as nat)
            &&& n[17] == '_'
            &&& n[18] == digit_char((t.hour / 10) as nat) && n[19] == digit_char((t.hour % 10) as nat)
            &&& n[20] == digit_char((t.minute / 10) as nat) && n[21] == digit_char(
                (t.minute % 10) as nat,
            )
            &&& n[22] == digit_char(sec / 10) && n[23] == digit_char(sec % 10)
            &&& n[24] == '.'
            &&& n[25] == digit_char(ms / 100) && n[26] == digit_char(ms / 10 % 10)
            &&& n[27] == digit_char(ms % 10)
            &&& n.subrange(28, 32) == ".png"@
        }),
{
    let y = t.year as nat;
    let sec = (t.second + t.nanosecond / 1_000_000_000) as nat;
    let ms = (t.nanosecond / 1_000_000 % 1000) as nat;
    lemma_four_digits(y);
    lemma_two_digits(t.month as nat);
    lemma_two_digits(t.day as nat);
    lemma_two_digits(t.hour as nat);
    lemma_two_digits(t.minute as nat);
    lemma_two_digits(sec);
    lemma_three_digits(ms);
    reveal_strlit("mintshot_");
    reveal_strlit("_");
    reveal_strlit(".");
    reveal_strlit(".png");
    let want = "mintshot_"@ + seq![
        digit_char(y / 1000),
        digit_char(y / 100 % 10),
        digit_char(y / 10 % 10),
        digit_char(y % 10),
    ] + seq![digit_char((t.month / 10) as nat), digit_char((t.month % 10) as nat)] + seq![
        digit_char((t.day / 10) as nat),
        digit_char((t.day % 10) as nat),
    ] + "_"@ + seq![digit_char((t.hour / 10) as nat), digit_char((t.hour % 10) as nat)] + seq![
        digit_char((t.minute / 10) as nat),
        digit_char((t.minute % 10) as nat),
    ] + seq![digit_char(sec / 10), digit_char(sec % 10)] + "."@ + seq![
        digit_char(ms / 100),
        digit_char(ms / 10 % 10),
        digit_char(ms % 10),
    ] + ".png"@;
    assert(plain_file_name(t) =~= want);
}

/// A numbered name is the plain name with `_` and the number put before
/// `.png`.
pub proof fn lemma_numbered_name_extends_plain(t: Timestamp, counter: u32)
    ensures
        ({
            let p = plain_file_name(t);
            numbered_file_name(t, counter) == p.subrange(0, p.len() - 4) + "_"@ + decimal(
                counter as nat,
            ) + ".png"@
        }),
{
    reveal_strlit(".png");
    let p = plain_file_name(t);
    assert(p.subrange(0, p.len() - 4) =~= "mintshot_"@ + stamp_text(t));
    assert(numbered_file_name(t, counter) =~= p.subrange(0, p.len() - 4) + "_"@ + decimal(
        counter as nat,
    ) + ".png"@);
}

// ─── PNG encoding ────────────────────────────────────────────────────────

#[verifier::external_type_specification]
#[verifier::external_body]
pub struct ExPngEncodingError(png::EncodingError);

/// What the `png` crate writes for an 8-bit RGBA image of this size and
/// these pixels, with fast compression and the `Sub` filter.
pub uninterp spec fn png_rgba8_fast(pixels: Seq<u8>, width: u32, height: u32) -> Seq<u8>;

/// The eight bytes that every PNG file starts with.
pub open spec fn png_signature() -> Seq<u8> {
    seq![137u8, 80u8, 78u8, 71u8, 13u8, 10u8, 26u8, 10u8]
}

/// Encodes RGBA pixels with `png::Encoder` (8-bit RGBA, fast compression,
/// `Sub` filter) into a byte vector.
///
/// The crate refuses a zero width or height and a buffer whose length is
/// not four bytes per pixel; writing into a vector cannot fail otherwise.
/// Its output begins with the PNG signature.
#[verifier::external_body]
fn encode_rgba8(pixels: &[u8], width: u32, height: u32) -> (r: Result<Vec<u8>, png::EncodingError>)
    requires
        (width * 4 + 1) * height <= usize::MAX,
    ensures
        r is Ok <==> (width > 0 && height > 0 && pixels@.len() == width * height * 4),
        r matches Ok(b) ==> b@ == png_rgba8_fast(pixels@, width, height),
        r matches Ok(b) ==> b@.len() >= 8 && b@.subrange(0, 8) == png_signature(),
{
    let mut buf: Vec<u8> = Vec::new();
    let mut encoder = png::Encoder::new(&mut buf, width, height);
    encoder.set_color(png::ColorType::Rgba);
    encoder.set_depth(png::BitDepth::Eight);
    encoder.set_compression(png::Compression::Fast);
    encoder.set_filter(png::FilterType::Sub);
    let mut writer = encoder.write_header()?;
    writer.write_image_data(pixels)?;
    writer.finish()?;
    Ok(buf)
}

/// The message of a `png::EncodingError`, by its `Display`. Nothing is
/// stated of the text: the error is opaque to the library, so no clause can
/// say which of the crate's errors it is.
#[verifier::external_body]
fn png_error_message(e: &png::EncodingError) -> String {
    e.to_string()
}

/// Encodes RGBA pixels as a PNG, once, so that the same bytes can be both
/// written to the file and put on the clipboard.
///
/// Fails, with the encoder's message, exactly when the size is zero on an
/// axis or the buffer does not hold four bytes per pixel.
pub fn encode_png_to_vec(pixels: &[u8], width: u32, height: u32) -> (r: Result<Vec<u8>, String>)
    requires
        (width * 4 + 1) * height <= usize::MAX,
    ensures
        r is Ok <==> (width > 0 && height > 0 && pixels@.len() == width * height * 4),
        r matches Ok(b) ==> b@ == png_rgba8_fast(pixels@, width, height),
        r matches Ok(b) ==> b@.len() >= 8 && b@.subrange(0, 8) == png_signature(),
{
    match encode_rgba8(pixels, width, height) {
        Ok(bytes) => Ok(bytes),
        Err(e) => Err(png_error_message(&e)),
    }
}

} // verus!
