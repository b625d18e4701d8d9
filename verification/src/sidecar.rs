//! The metadata sidecar codec: how a completed chunk's metadata is written
//! into the structured text file stored beside the raw bytes, and how that
//! file is read back.
//!
//! The sidecar is a small pretty-printed JSON object (or `null` for a chunk
//! without metadata). The writer escapes quote and backslash characters in
//! format tags; other characters are written as they are, which covers every
//! tag the normalized pipelines produce. The reader accepts exactly what the
//! writer produces, and reading back a written sidecar reproduces every
//! metadata field — see `lemma_sidecar_round_trip`.

use vstd::prelude::*;
use vstd::string::StrSliceExecFns;
use vstd::string::StringExecFns;

use crate::chunk::AudioFrameMetadata;
use crate::chunk::AudioMetaModel;
use crate::chunk::ChunkMetadata;
use crate::chunk::MetaModel;
use crate::chunk::VideoFrameMetadata;
use crate::chunk::VideoMetaModel;
use crate::digits::dec_digits;
use crate::digits::dec_i32;
use crate::digits::i32_to_dec;
use crate::digits::push_char;
use crate::digits::scan_i32;
use crate::digits::scan_u64;
use crate::digits::spec_scan_i32;
use crate::digits::spec_scan_u64;
use crate::digits::u64_to_dec;

verus! {

/// How one character of a format tag is written: quote and backslash get a
/// backslash escape, everything else stands as itself.
pub open spec fn esc_char(c: char) -> Seq<char> {
    if c == '"' || c == '\\' {
        seq!['\\', c]
    } else {
        seq![c]
    }
}

/// How a whole format tag is written inside its quotes.
pub open spec fn esc(s: Seq<char>) -> Seq<char>
    decreases s.len(),
{
    if s.len() == 0 {
        Seq::empty()
    } else {
        esc_char(s[0]) + esc(s.skip(1))
    }
}

/// Escaping distributes over appending one character.
pub proof fn lemma_esc_snoc(s: Seq<char>, c: char)
    ensures
        esc(s.push(c)) == esc(s) + esc_char(c),
    decreases s.len(),
{
    if s.len() == 0 {
        assert(s.push(c)[0] == c);
        assert(s.push(c).skip(1) =~= Seq::<char>::empty());
        assert(esc(Seq::<char>::empty()) == Seq::<char>::empty());
        assert(esc(s.push(c)) == esc_char(c) + esc(Seq::<char>::empty()));
        assert(esc_char(c) + Seq::<char>::empty() =~= Seq::<char>::empty() + esc_char(c));
    } else {
        assert(s.push(c).skip(1) =~= s.skip(1).push(c));
        lemma_esc_snoc(s.skip(1), c);
        assert(s.push(c)[0] == s[0]);
        assert(esc_char(s[0]) + (esc(s.skip(1)) + esc_char(c)) =~= (esc_char(s[0]) + esc(
            s.skip(1),
        )) + esc_char(c));
    }
}

/// Reading a quoted tag from position `i` (just after the opening quote):
/// the unescaped characters up to the closing quote, and the position right
/// after that quote. Nothing when the text ends before a closing quote.
pub open spec fn unesc_scan(s: Seq<char>, i: int) -> Option<(Seq<char>, int)>
    recommends
        0 <= i <= s.len(),
    decreases s.len() - i,
    when 0 <= i <= s.len()
{
    if i >= s.len() {
        Option::None
    } else if s[i] == '"' {
        Option::Some((Seq::empty(), i + 1))
    } else if s[i] == '\\' {
        if i + 1 < s.len() {
            match unesc_scan(s, i + 2) {
                Option::Some((t, j)) => Option::Some((seq![s[i + 1]] + t, j)),
                Option::None => Option::None,
            }
        } else {
            Option::None
        }
    } else {
        match unesc_scan(s, i + 1) {
            Option::Some((t, j)) => Option::Some((seq![s[i]] + t, j)),
            Option::None => Option::None,
        }
    }
}

/// Reading back an escaped tag followed by its closing quote yields exactly
/// the original tag: the writer and the reader invert each other.
pub proof fn lemma_unesc_esc(s: Seq<char>, i: int, t: Seq<char>)
    requires
        0 <= i,
        i + esc(t).len() + 1 <= s.len(),
        s.subrange(i, i + esc(t).len() + 1) == esc(t) + seq!['"'],
    ensures
        unesc_scan(s, i) == Option::Some((t, i + esc(t).len() + 1)),
    decreases t.len(),
{
    let block = esc(t) + seq!['"'];
    assert forall|q: int| 0 <= q < esc(t).len() + 1 implies s[i + q] == block[q] by {
        assert(s.subrange(i, i + esc(t).len() + 1)[q] == s[i + q]);
    }
    if t.len() == 0 {
        assert(s[i] == block[0]);
        assert(s[i] == '"');
        assert(unesc_scan(s, i) == Option::Some((Seq::<char>::empty(), i + 1)));
        assert(t =~= Seq::<char>::empty());
    } else {
        let c = t[0];
        let rest = t.skip(1);
        assert(esc(t) == esc_char(c) + esc(rest));
        if c == '"' || c == '\\' {
            assert(esc_char(c) =~= seq!['\\', c]);
            assert(s[i] == block[0]);
            assert(s[i] == '\\');
            assert(s[i + 1] == block[1]);
            assert(s[i + 1] == c);
            assert(s.subrange(i + 2, i + 2 + esc(rest).len() + 1) =~= esc(rest) + seq!['"']) by {
                assert forall|k: int| 0 <= k < esc(rest).len() + 1 implies s.subrange(
                    i + 2,
                    i + 2 + esc(rest).len() + 1,
                )[k] == (esc(rest) + seq!['"'])[k] by {
                    assert(s[i + (2 + k)] == block[2 + k]);
                }
            }
            lemma_unesc_esc(s, i + 2, rest);
            assert(seq![s[i + 1]] + rest =~= t);
        } else {
            assert(esc_char(c) =~= seq![c]);
            assert(s[i] == block[0]);
            assert(s[i] == c);
            assert(s.subrange(i + 1, i + 1 + esc(rest).len() + 1) =~= esc(rest) + seq!['"']) by {
                assert forall|k: int| 0 <= k < esc(rest).len() + 1 implies s.subrange(
                    i + 1,
                    i + 1 + esc(rest).len() + 1,
                )[k] == (esc(rest) + seq!['"'])[k] by {
                    assert(s[i + (1 + k)] == block[1 + k]);
                }
            }
            lemma_unesc_esc(s, i + 1, rest);
            assert(seq![s[i]] + rest =~= t);
        }
    }
}

/// Whether the literal `lit` stands at position `i` of `s`; the position
/// right after it when it does.
pub open spec fn spec_expect(s: Seq<char>, i: int, lit: Seq<char>) -> Option<int> {
    if 0 <= i && i + lit.len() <= s.len() && s.subrange(i, i + lit.len()) == lit {
        Option::Some(i + lit.len())
    } else {
        Option::None
    }
}

/// Checks that the given literal stands at position `i`.
fn expect_lit(s: &str, i: usize, lit: &str) -> (r: Option<usize>)
    requires
        i <= s@.len(),
    ensures
        match r {
            Option::Some(j) => spec_expect(s@, i as int, lit@) == Option::Some(j as int) && j
                <= s@.len(),
            Option::None => spec_expect(s@, i as int, lit@) is None,
        },
{
    let n = lit.unicode_len();
    let len = s.unicode_len();
    if n > len - i {
        return Option::None;
    }
    let mut k: usize = 0;
    while k < n
        invariant
            k <= n,
            n == lit@.len(),
            len == s@.len(),
            i + n <= len,
            forall|q: int| 0 <= q < k ==> s@[i + q] == lit@[q],
        decreases n - k,
    {
        let a = s.get_char(i + k);
        let b = lit.get_char(k);
        if a != b {
            proof {
                let sub = s@.subrange(i as int, i as int + lit@.len());
                assert(sub[k as int] == s@[i + k]);
                assert(sub[k as int] != lit@[k as int]);
            }
            return Option::None;
        }
        k = k + 1;
    }
    proof {
        assert(s@.subrange(i as int, i as int + lit@.len()) =~= lit@);
    }
    Option::Some(i + n)
}

/// Prefixes the characters already read onto what a scan of the remainder
/// yields.
pub open spec fn spec_prepend(pre: Seq<char>, r: Option<(Seq<char>, int)>) -> Option<
    (Seq<char>, int),
> {
    match r {
        Option::Some((t, j)) => Option::Some((pre + t, j)),
        Option::None => Option::None,
    }
}

/// Reads a quoted tag starting right after its opening quote, unescaping as
/// the writer escaped, up to the closing quote.
fn scan_string_body(s: &str, start: usize) -> (r: Option<(String, usize)>)
    requires
        start <= s@.len(),
    ensures
        match r {
            Option::Some(p) => unesc_scan(s@, start as int) == Option::Some((p.0@, p.1 as int))
                && p.1 <= s@.len(),
            Option::None => unesc_scan(s@, start as int) is None,
        },
{
    let len = s.unicode_len();
    let mut i: usize = start;
    let mut out = String::new();
    loop
        invariant
            start <= i <= len,
            len == s@.len(),
            unesc_scan(s@, start as int) == spec_prepend(out@, unesc_scan(s@, i as int)),
        decreases len - i,
    {
        if i >= len {
            return Option::None;
        }
        let c = s.get_char(i);
        if c == '"' {
            proof {
                assert(out@ + Seq::<char>::empty() =~= out@);
            }
            return Option::Some((out, i + 1));
        }
        if c == '\\' {
            if i + 1 >= len {
                return Option::None;
            }
            let c2 = s.get_char(i + 1);
            proof {
                let pre = out@;
                let rec = unesc_scan(s@, i as int + 2);
                if rec is Some {
                    let t = rec->Some_0.0;
                    assert(pre + (seq![s@[i as int + 1]] + t) =~= pre.push(s@[i as int + 1]) + t);
                }
            }
            push_char(&mut out, c2);
            i = i + 2;
        } else {
            proof {
                let pre = out@;
                let rec = unesc_scan(s@, i as int + 1);
                if rec is Some {
                    let t = rec->Some_0.0;
                    assert(pre + (seq![s@[i as int]] + t) =~= pre.push(s@[i as int]) + t);
                }
            }
            push_char(&mut out, c);
            i = i + 1;
        }
    }
}

/// What stands in a format slot: `null`, or a quoted tag. The value read and
/// the position right after it.
pub open spec fn spec_scan_format(s: Seq<char>, i: int) -> Option<(Option<Seq<char>>, int)> {
    match spec_expect(s, i, "null"@) {
        Option::Some(j) => Option::Some((Option::None, j)),
        Option::None => if 0 <= i < s.len() && s[i] == '"' {
            match unesc_scan(s, i + 1) {
                Option::Some((t, j)) => Option::Some((Option::Some(t), j)),
                Option::None => Option::None,
            }
        } else {
            Option::None
        },
    }
}

/// Reads a format slot: `null`, or a quoted tag.
fn scan_format(s: &str, i: usize) -> (r: Option<(Option<String>, usize)>)
    requires
        i <= s@.len(),
    ensures
        match r {
            Option::Some(p) => ({
                &&& spec_scan_format(s@, i as int) matches Option::Some(q)
                &&& q.1 == p.1 as int
                &&& p.1 <= s@.len()
                &&& (match p.0 {
                    Option::Some(t) => q.0 == Option::Some(t@),
                    Option::None => q.0 is None,
                })
            }),
            Option::None => spec_scan_format(s@, i as int) is None,
        },
{
    match expect_lit(s, i, "null") {
        Option::Some(j) => Option::Some((Option::None, j)),
        Option::None => {
            let len = s.unicode_len();
            if i < len && s.get_char(i) == '"' {
                match scan_string_body(s, i + 1) {
                    Option::Some((t, j)) => Option::Some((Option::Some(t), j)),
                    Option::None => Option::None,
                }
            } else {
                Option::None
            }
        },
    }
}

/// What stands in an optional-number slot: `null`, or a digit run. The value
/// read and the position right after it.
pub open spec fn spec_scan_opt_u64(s: Seq<char>, i: int) -> Option<(Option<u64>, int)> {
    match spec_expect(s, i, "null"@) {
        Option::Some(j) => Option::Some((Option::None, j)),
        Option::None => match spec_scan_u64(s, i) {
            Option::Some((v, j)) => Option::Some((Option::Some(v), j)),
            Option::None => Option::None,
        },
    }
}

/// Reads an optional-number slot: `null`, or a number.
fn scan_opt_u64(s: &str, i: usize) -> (r: Option<(Option<u64>, usize)>)
    requires
        i <= s@.len(),
    ensures
        match r {
            Option::Some(p) => spec_scan_opt_u64(s@, i as int) == Option::Some(
                (p.0, p.1 as int),
            ) && p.1 <= s@.len(),
            Option::None => spec_scan_opt_u64(s@, i as int) is None,
        },
{
    match expect_lit(s, i, "null") {
        Option::Some(j) => Option::Some((Option::None, j)),
        Option::None => match scan_u64(s, i) {
            Option::Some((v, j)) => {
                proof {
                    crate::digits::lemma_digit_run_end(s@, i as int);
                }
                Option::Some((Option::Some(v), j))
            },
            Option::None => Option::None,
        },
    }
}

/// How a format tag is written into its slot: `null`, or the escaped tag in
/// quotes.
pub open spec fn spec_render_format(o: Option<Seq<char>>) -> Seq<char> {
    match o {
        Option::None => "null"@,
        Option::Some(t) => seq!['"'] + esc(t) + seq!['"'],
    }
}

/// How an optional number is written into its slot: `null`, or its digits.
pub open spec fn spec_render_opt_u64(o: Option<u64>) -> Seq<char> {
    match o {
        Option::None => "null"@,
        Option::Some(v) => dec_digits(v as nat),
    }
}

/// The sidecar text of video metadata.
pub open spec fn spec_render_video(m: VideoMetaModel) -> Seq<char> {
    "{\n  \"width\": "@ + dec_i32(m.width as int) + ",\n  \"height\": "@ + dec_i32(
        m.height as int,
    ) + ",\n  \"format\": "@ + spec_render_format(m.format) + ",\n  \"pts\": "@
        + spec_render_opt_u64(m.pts_ms) + "\n}"@
}

/// The sidecar text of audio metadata.
pub open spec fn spec_render_audio(m: AudioMetaModel) -> Seq<char> {
    "{\n  \"rate\": "@ + dec_digits(m.rate as nat) + ",\n  \"channels\": "@ + dec_digits(
        m.channels as nat,
    ) + ",\n  \"format\": "@ + spec_render_format(m.format) + ",\n  \"frames\": "@ + dec_digits(
        m.frames as nat,
    ) + ",\n  \"pts_ms\": "@ + spec_render_opt_u64(m.pts_ms) + "\n}"@
}

/// The sidecar text of a chunk's metadata.
pub open spec fn spec_render_metadata(m: MetaModel) -> Seq<char> {
    match m {
        MetaModel::Missing => "null"@,
        MetaModel::Video(v) => spec_render_video(v),
        MetaModel::Audio(a) => spec_render_audio(a),
    }
}

/// Appends a format tag, escaped, inside its quotes.
fn append_escaped(out: &mut String, t: &str)
    ensures
        final(out)@ == old(out)@ + esc(t@),
{
    let len = t.unicode_len();
    let mut i: usize = 0;
    while i < len
        invariant
            i <= len,
            len == t@.len(),
            out@ == old(out)@ + esc(t@.subrange(0, i as int)),
        decreases len - i,
    {
        let c = t.get_char(i);
        if c == '"' || c == '\\' {
            push_char(out, '\\');
            push_char(out, c);
        } else {
            push_char(out, c);
        }
        proof {
            lemma_esc_snoc(t@.subrange(0, i as int), t@[i as int]);
            assert(t@.subrange(0, i as int + 1) =~= t@.subrange(0, i as int).push(t@[i as int]));
            assert(out@ =~= old(out)@ + esc(t@.subrange(0, i as int + 1)));
        }
        i = i + 1;
    }
    proof {
        assert(t@.subrange(0, t@.len() as int) =~= t@);
    }
}

/// Appends a format slot: `null`, or the quoted escaped tag.
fn append_format(out: &mut String, o: &Option<String>)
    ensures
        final(out)@ == old(out)@ + spec_render_format(
            match o {
                Option::Some(t) => Option::Some(t@),
                Option::None => Option::None,
            },
        ),
{
    match o {
        Option::None => {
            out.append("null");
        },
        Option::Some(t) => {
            push_char(out, '"');
            append_escaped(out, t.as_str());
            push_char(out, '"');
            proof {
                assert(old(out)@ + (seq!['"'] + esc(t@) + seq!['"']) =~= ((old(out)@.push('"'))
                    + esc(t@)).push('"'));
            }
        },
    }
}

/// Appends an optional-number slot: `null`, or the number's digits.
fn append_opt_u64(out: &mut String, o: Option<u64>)
    ensures
        final(out)@ == old(out)@ + spec_render_opt_u64(o),
{
    match o {
        Option::None => {
            out.append("null");
        },
        Option::Some(v) => {
            let d = u64_to_dec(v);
            out.append(d.as_str());
        },
    }
}

/// Appends a number's digits.
fn append_u64(out: &mut String, v: u64)
    ensures
        final(out)@ == old(out)@ + dec_digits(v as nat),
{
    let d = u64_to_dec(v);
    out.append(d.as_str());
}

/// Appends a signed number.
fn append_i32(out: &mut String, v: i32)
    ensures
        final(out)@ == old(out)@ + dec_i32(v as int),
{
    let d = i32_to_dec(v);
    out.append(d.as_str());
}

/// What reading a video sidecar object yields: each field in order, then the
/// closing brace, then the end of the text. Anything else is rejected.
pub open spec fn spec_parse_video(s: Seq<char>) -> Option<MetaModel> {
    match spec_expect(s, 0, "{\n  \"width\": "@) {
        Option::None => Option::None,
        Option::Some(q1) => match spec_scan_i32(s, q1) {
            Option::None => Option::None,
            Option::Some((width, q2)) => match spec_expect(s, q2, ",\n  \"height\": "@) {
                Option::None => Option::None,
                Option::Some(q3) => match spec_scan_i32(s, q3) {
                    Option::None => Option::None,
                    Option::Some((height, q4)) => match spec_expect(s, q4, ",\n  \"format\": "@) {
                        Option::None => Option::None,
                        Option::Some(q5) => match spec_scan_format(s, q5) {
                            Option::None => Option::None,
                            Option::Some((format, q6)) => match spec_expect(
                                s,
                                q6,
                                ",\n  \"pts\": "@,
                            ) {
                                Option::None => Option::None,
                                Option::Some(q7) => match spec_scan_opt_u64(s, q7) {
                                    Option::None => Option::None,
                                    Option::Some((pts_ms, q8)) => match spec_expect(s, q8, "\n}"@) {
                                        Option::None => Option::None,
                                        Option::Some(q9) => if q9 == s.len() {
                                            Option::Some(
                                                MetaModel::Video(
                                                    VideoMetaModel { width, height, format, pts_ms },
                                                ),
                                            )
                                        } else {
                                            Option::None
                                        },
                                    },
                                },
                            },
                        },
                    },
                },
            },
        },
    }
}

/// What reading an audio sidecar object yields: each field in order, then
/// the closing brace, then the end of the text. Anything else is rejected.
pub open spec fn spec_parse_audio(s: Seq<char>) -> Option<MetaModel> {
    match spec_expect(s, 0, "{\n  \"rate\": "@) {
        Option::None => Option::None,
        Option::Some(q1) => match spec_scan_u64(s, q1) {
            Option::None => Option::None,
            Option::Some((rate, q2)) => if rate > 0xffff_ffffu64 {
                Option::None
            } else {
                match spec_expect(s, q2, ",\n  \"channels\": "@) {
                    Option::None => Option::None,
                    Option::Some(q3) => match spec_scan_u64(s, q3) {
                        Option::None => Option::None,
                        Option::Some((channels, q4)) => if channels > 0xffff_ffffu64 {
                            Option::None
                        } else {
                            match spec_expect(s, q4, ",\n  \"format\": "@) {
                                Option::None => Option::None,
                                Option::Some(q5) => match spec_scan_format(s, q5) {
                                    Option::None => Option::None,
                                    Option::Some((format, q6)) => match spec_expect(
                                        s,
                                        q6,
                                        ",\n  \"frames\": "@,
                                    ) {
                                        Option::None => Option::None,
                                        Option::Some(q7) => match spec_scan_u64(s, q7) {
                                            Option::None => Option::None,
                                            Option::Some((frames, q8)) => if frames
                                                > usize::MAX as u64 {
                                                Option::None
                                            } else {
                                                match spec_expect(s, q8, ",\n  \"pts_ms\": "@) {
                                                    Option::None => Option::None,
                                                    Option::Some(q9) => match spec_scan_opt_u64(
                                                        s,
                                                        q9,
                                                    ) {
                                                        Option::None => Option::None,
                                                        Option::Some((pts_ms, q10)) => match spec_expect(
                                                            s,
                                                            q10,
                                                            "\n}"@,
                                                        ) {
                                                            Option::None => Option::None,
                                                            Option::Some(q11) => if q11 == s.len() {
                                                                Option::Some(
                                                                    MetaModel::Audio(
                                                                        AudioMetaModel {
                                                                            rate: rate as u32,
                                                                            channels: channels as u32,
                                                                            format,
                                                                            frames: frames as usize,
                                                                            pts_ms,
                                                                        },
                                                                    ),
                                                                )
                                                            } else {
                                                                Option::None
                                                            },
                                                        },
                                                    },
                                                }
                                            },
                                        },
                                    },
                                },
                            }
                        },
                    },
                }
            },
        },
    }
}

/// What reading a whole sidecar text yields: `null` for a chunk without
/// metadata, a video object, or an audio object, told apart by their fixed
/// opening phrases.
pub open spec fn spec_parse_metadata(s: Seq<char>) -> Option<MetaModel> {
    if s == "null"@ {
        Option::Some(MetaModel::Missing)
    } else if spec_expect(s, 0, "{\n  \"width\": "@) is Some {
        spec_parse_video(s)
    } else if spec_expect(s, 0, "{\n  \"rate\": "@) is Some {
        spec_parse_audio(s)
    } else {
        Option::None
    }
}

/// Reads a video sidecar object.
fn parse_video(s: &str) -> (r: Option<ChunkMetadata>)
    ensures
        match r {
            Option::Some(meta) => spec_parse_video(s@) == Option::Some(meta@),
            Option::None => spec_parse_video(s@) is None,
        },
{
    let q1 = match expect_lit(s, 0, "{\n  \"width\": ") {
        Option::Some(j) => j,
        Option::None => {
            return Option::None;
        },
    };
    let (width, q2) = match scan_i32(s, q1) {
        Option::Some(p) => p,
        Option::None => {
            return Option::None;
        },
    };
    let q3 = match expect_lit(s, q2, ",\n  \"height\": ") {
        Option::Some(j) => j,
        Option::None => {
            return Option::None;
        },
    };
    let (height, q4) = match scan_i32(s, q3) {
        Option::Some(p) => p,
        Option::None => {
            return Option::None;
        },
    };
    let q5 = match expect_lit(s, q4, ",\n  \"format\": ") {
        Option::Some(j) => j,
        Option::None => {
            return Option::None;
        },
    };
    let (format, q6) = match scan_format(s, q5) {
        Option::Some(p) => p,
        Option::None => {
            return Option::None;
        },
    };
    let q7 = match expect_lit(s, q6, ",\n  \"pts\": ") {
        Option::Some(j) => j,
        Option::None => {
            return Option::None;
        },
    };
    let (pts_ms, q8) = match scan_opt_u64(s, q7) {
        Option::Some(p) => p,
        Option::None => {
            return Option::None;
        },
    };
    let q9 = match expect_lit(s, q8, "\n}") {
        Option::Some(j) => j,
        Option::None => {
            return Option::None;
        },
    };
    if q9 != s.unicode_len() {
        return Option::None;
    }
    Option::Some(ChunkMetadata::Video(VideoFrameMetadata { width, height, format, pts_ms }))
}

/// Reads an audio sidecar object.
fn parse_audio(s: &str) -> (r: Option<ChunkMetadata>)
    ensures
        match r {
            Option::Some(meta) => spec_parse_audio(s@) == Option::Some(meta@),
            Option::None => spec_parse_audio(s@) is None,
        },
{
    let q1 = match expect_lit(s, 0, "{\n  \"rate\": ") {
        Option::Some(j) => j,
        Option::None => {
            return Option::None;
        },
    };
    let (rate, q2) = match scan_u64(s, q1) {
        Option::Some(p) => p,
        Option::None => {
            return Option::None;
        },
    };
    if rate > 0xffff_ffffu64 {
        return Option::None;
    }
    let q3 = match expect_lit(s, q2, ",\n  \"channels\": ") {
        Option::Some(j) => j,
        Option::None => {
            return Option::None;
        },
    };
    let (channels, q4) = match scan_u64(s, q3) {
        Option::Some(p) => p,
        Option::None => {
            return Option::None;
        },
    };
    if channels > 0xffff_ffffu64 {
        return Option::None;
    }
    let q5 = match expect_lit(s, q4, ",\n  \"format\": ") {
        Option::Some(j) => j,
        Option::None => {
            return Option::None;
        },
    };
    let (format, q6) = match scan_format(s, q5) {
        Option::Some(p) => p,
        Option::None => {
            return Option::None;
        },
    };
    let q7 = match expect_lit(s, q6, ",\n  \"frames\": ") {
        Option::Some(j) => j,
        Option::None => {
            return Option::None;
        },
    };
    let (frames, q8) = match scan_u64(s, q7) {
        Option::Some(p) => p,
        Option::None => {
            return Option::None;
        },
    };
    if frames > usize::MAX as u64 {
        return Option::None;
    }
    let q9 = match expect_lit(s, q8, ",\n  \"pts_ms\": ") {
        Option::Some(j) => j,
        Option::None => {
            return Option::None;
        },
    };
    let (pts_ms, q10) = match scan_opt_u64(s, q9) {
        Option::Some(p) => p,
        Option::None => {
            return Option::None;
        },
    };
    let q11 = match expect_lit(s, q10, "\n}") {
        Option::Some(j) => j,
        Option::None => {
            return Option::None;
        },
    };
    if q11 != s.unicode_len() {
        return Option::None;
    }
    Option::Some(
        ChunkMetadata::Audio(
            AudioFrameMetadata {
                rate: rate as u32,
                channels: channels as u32,
                format,
                frames: frames as usize,
                pts_ms,
            },
        ),
    )
}

/// Reads a sidecar text back into the metadata it was written from: `null`,
/// a video object, or an audio object. Accepts exactly what
/// `render_metadata` produces and rejects everything else.
pub fn parse_metadata(s: &str) -> (r: Option<ChunkMetadata>)
    ensures
        match r {
            Option::Some(meta) => spec_parse_metadata(s@) == Option::Some(meta@),
            Option::None => spec_parse_metadata(s@) is None,
        },
{
    let len = s.unicode_len();
    let is_null = match expect_lit(s, 0, "null") {
        Option::Some(j) => j == len,
        Option::None => false,
    };
    proof {
        if !is_null && s@ == "null"@ {
            assert(s@.subrange(0, s@.len() as int) =~= s@);
        }
    }
    if is_null {
        proof {
            assert(s@ =~= "null"@);
        }
        return Option::Some(ChunkMetadata::Missing);
    }
    match expect_lit(s, 0, "{\n  \"width\": ") {
        Option::Some(_) => parse_video(s),
        Option::None => match expect_lit(s, 0, "{\n  \"rate\": ") {
            Option::Some(_) => parse_audio(s),
            Option::None => Option::None,
        },
    }
}

/// Writes a chunk's metadata as its sidecar text: the pretty-printed
/// structured object stored beside the chunk's raw bytes, or `null` for a
/// chunk that carries no metadata.
pub fn render_metadata(m: &ChunkMetadata) -> (r: String)
    ensures
        r@ == spec_render_metadata(m@),
{
    match m {
        ChunkMetadata::Missing => "null".to_owned(),
        ChunkMetadata::Video(v) => {
            let mut out = String::new();
            out.append("{\n  \"width\": ");
            append_i32(&mut out, v.width);
            out.append(",\n  \"height\": ");
            append_i32(&mut out, v.height);
            out.append(",\n  \"format\": ");
            append_format(&mut out, &v.format);
            out.append(",\n  \"pts\": ");
            append_opt_u64(&mut out, v.pts_ms);
            out.append("\n}");
            proof {
                assert(out@ =~= spec_render_video(v@));
            }
            out
        },
        ChunkMetadata::Audio(a) => {
            let mut out = String::new();
            out.append("{\n  \"rate\": ");
            append_u64(&mut out, a.rate as u64);
            out.append(",\n  \"channels\": ");
            append_u64(&mut out, a.channels as u64);
            out.append(",\n  \"format\": ");
            append_format(&mut out, &a.format);
            out.append(",\n  \"frames\": ");
            append_u64(&mut out, a.frames as u64);
            out.append(",\n  \"pts_ms\": ");
            append_opt_u64(&mut out, a.pts_ms);
            out.append("\n}");
            proof {
                assert(out@ =~= spec_render_audio(a@));
            }
            out
        },
    }
}

/// Reading a format slot back at the position where one was written yields
/// exactly the written tag (or its absence) and ends right after the slot.
proof fn lemma_scan_format_block(s: Seq<char>, i: int, o: Option<Seq<char>>)
    requires
        0 <= i,
        i + spec_render_format(o).len() <= s.len(),
        s.subrange(i, i + spec_render_format(o).len()) == spec_render_format(o),
    ensures
        spec_scan_format(s, i) == Option::Some((o, i + spec_render_format(o).len())),
{
    reveal_strlit("null");
    let f = spec_render_format(o);
    assert forall|q: int| 0 <= q < f.len() implies s[i + q] == f[q] by {
        assert(s.subrange(i, i + f.len())[q] == s[i + q]);
    }
    match o {
        Option::None => {
            assert(f == "null"@);
            assert(s.subrange(i, i + 4) == "null"@);
            assert(spec_expect(s, i, "null"@) == Option::Some(i + 4));
        },
        Option::Some(t) => {
            let et = esc(t);
            assert(f == (seq!['"'] + et) + seq!['"']);
            assert(f.len() == et.len() + 2);
            assert(s[i + 0] == f[0]);
            assert(s[i] == '"');
            assert(spec_expect(s, i, "null"@) is None) by {
                if i + 4 <= s.len() && s.subrange(i, i + 4) == "null"@ {
                    assert(s.subrange(i, i + 4)[0] == s[i + 0]);
                    assert(s[i] == 'n');
                }
            }
            assert(s.subrange(i + 1, i + 1 + et.len() + 1) =~= et + seq!['"']) by {
                assert forall|k: int| 0 <= k < et.len() + 1 implies s.subrange(
                    i + 1,
                    i + 1 + et.len() + 1,
                )[k] == (et + seq!['"'])[k] by {
                    assert(s[i + (1 + k)] == f[1 + k]);
                }
            }
            lemma_unesc_esc(s, i + 1, t);
        },
    }
}

/// Reading an optional-number slot back at the position where one was
/// written yields exactly the written value (or its absence), provided no
/// digit follows the slot.
proof fn lemma_scan_opt_u64_block(s: Seq<char>, i: int, o: Option<u64>)
    requires
        0 <= i,
        i + spec_render_opt_u64(o).len() <= s.len(),
        s.subrange(i, i + spec_render_opt_u64(o).len()) == spec_render_opt_u64(o),
        i + spec_render_opt_u64(o).len() < s.len() ==> !crate::digits::is_digit(
            s[i + spec_render_opt_u64(o).len()],
        ),
    ensures
        spec_scan_opt_u64(s, i) == Option::Some((o, i + spec_render_opt_u64(o).len())),
{
    reveal_strlit("null");
    let pv = spec_render_opt_u64(o);
    assert forall|q: int| 0 <= q < pv.len() implies s[i + q] == pv[q] by {
        assert(s.subrange(i, i + pv.len())[q] == s[i + q]);
    }
    match o {
        Option::None => {
            assert(pv == "null"@);
            assert(s.subrange(i, i + 4) == "null"@);
            assert(spec_expect(s, i, "null"@) == Option::Some(i + 4));
        },
        Option::Some(val) => {
            crate::digits::lemma_dec_digits(val as nat);
            assert(s[i + 0] == pv[0]);
            assert(crate::digits::is_digit(s[i]));
            assert(spec_expect(s, i, "null"@) is None) by {
                if i + 4 <= s.len() && s.subrange(i, i + 4) == "null"@ {
                    assert(s.subrange(i, i + 4)[0] == s[i + 0]);
                    assert(s[i] == 'n');
                }
            }
            crate::digits::lemma_scan_u64_block(s, i, val);
        },
    }
}

/// Round trip of a video sidecar: reading back what was written reproduces
/// the metadata exactly.
#[verifier::rlimit(100)]
proof fn lemma_round_trip_video(v: VideoMetaModel)
    ensures
        spec_parse_metadata(spec_render_video(v)) == Option::Some(MetaModel::Video(v)),
{
    reveal_strlit("{\n  \"width\": ");
    reveal_strlit(",\n  \"height\": ");
    reveal_strlit(",\n  \"format\": ");
    reveal_strlit(",\n  \"pts\": ");
    reveal_strlit("\n}");
    reveal_strlit("null");
    let a1 = "{\n  \"width\": "@;
    let d1 = dec_i32(v.width as int);
    let a2 = ",\n  \"height\": "@;
    let d2 = dec_i32(v.height as int);
    let a3 = ",\n  \"format\": "@;
    let f = spec_render_format(v.format);
    let a4 = ",\n  \"pts\": "@;
    let pv = spec_render_opt_u64(v.pts_ms);
    let a5 = "\n}"@;
    let s = spec_render_video(v);
    assert(s == a1 + d1 + a2 + d2 + a3 + f + a4 + pv + a5);
    let n1 = a1.len() as int;
    let n2 = n1 + d1.len();
    let n3 = n2 + a2.len();
    let n4 = n3 + d2.len();
    let n5 = n4 + a3.len();
    let n6 = n5 + f.len();
    let n7 = n6 + a4.len();
    let n8 = n7 + pv.len();
    let n9 = n8 + a5.len();
    assert(s.len() == n9);
    assert(s != "null"@) by {
        assert(s[0] == a1[0]);
        assert(s[0] == '{');
        if s == "null"@ {
            assert(s[0] == 'n');
        }
    }
    assert(s.subrange(0, n1) =~= a1);
    assert(spec_expect(s, 0, a1) == Option::Some(n1));
    assert(s.subrange(n1, n2) =~= d1);
    assert(s[n2] == a2[0] && a2[0] == ',');
    crate::digits::lemma_scan_i32_block(s, n1, v.width);
    assert(s.subrange(n2, n3) =~= a2);
    assert(spec_expect(s, n2, a2) == Option::Some(n3));
    assert(s.subrange(n3, n4) =~= d2);
    assert(s[n4] == a3[0] && a3[0] == ',');
    crate::digits::lemma_scan_i32_block(s, n3, v.height);
    assert(s.subrange(n4, n5) =~= a3);
    assert(spec_expect(s, n4, a3) == Option::Some(n5));
    assert(s.subrange(n5, n6) =~= f);
    lemma_scan_format_block(s, n5, v.format);
    assert(s.subrange(n6, n7) =~= a4);
    assert(spec_expect(s, n6, a4) == Option::Some(n7));
    assert(s.subrange(n7, n8) =~= pv);
    assert(s[n8] == a5[0] && a5[0] == '\n');
    lemma_scan_opt_u64_block(s, n7, v.pts_ms);
    assert(s.subrange(n8, n9) =~= a5);
    assert(spec_expect(s, n8, a5) == Option::Some(n9));
    assert(spec_parse_video(s) == Option::Some(
        MetaModel::Video(
            VideoMetaModel {
                width: v.width,
                height: v.height,
                format: v.format,
                pts_ms: v.pts_ms,
            },
        ),
    ));
}

/// Round trip of an audio sidecar: reading back what was written reproduces
/// the metadata exactly.
#[verifier::rlimit(100)]
proof fn lemma_round_trip_audio(a: AudioMetaModel)
    ensures
        spec_parse_metadata(spec_render_audio(a)) == Option::Some(MetaModel::Audio(a)),
{
    reveal_strlit("{\n  \"rate\": ");
    reveal_strlit("{\n  \"width\": ");
    reveal_strlit(",\n  \"channels\": ");
    reveal_strlit(",\n  \"format\": ");
    reveal_strlit(",\n  \"frames\": ");
    reveal_strlit(",\n  \"pts_ms\": ");
    reveal_strlit("\n}");
    reveal_strlit("null");
    let a1 = "{\n  \"rate\": "@;
    let d1 = dec_digits(a.rate as nat);
    let a2 = ",\n  \"channels\": "@;
    let d2 = dec_digits(a.channels as nat);
    let a3 = ",\n  \"format\": "@;
    let f = spec_render_format(a.format);
    let a4 = ",\n  \"frames\": "@;
    let d3 = dec_digits(a.frames as nat);
    let a5 = ",\n  \"pts_ms\": "@;
    let pv = spec_render_opt_u64(a.pts_ms);
    let a6 = "\n}"@;
    let s = spec_render_audio(a);
    assert(s == a1 + d1 + a2 + d2 + a3 + f + a4 + d3 + a5 + pv + a6);
    crate::digits::lemma_dec_digits(a.rate as nat);
    crate::digits::lemma_dec_digits(a.channels as nat);
    crate::digits::lemma_dec_digits(a.frames as nat);
    let n1 = a1.len() as int;
    let n2 = n1 + d1.len();
    let n3 = n2 + a2.len();
    let n4 = n3 + d2.len();
    let n5 = n4 + a3.len();
    let n6 = n5 + f.len();
    let n7 = n6 + a4.len();
    let n8 = n7 + d3.len();
    let n9 = n8 + a5.len();
    let n10 = n9 + pv.len();
    let n11 = n10 + a6.len();
    assert(s.len() == n11);
    assert(s != "null"@) by {
        assert(s[0] == a1[0]);
        assert(s[0] == '{');
        if s == "null"@ {
            assert(s[0] == 'n');
        }
    }
    assert(spec_expect(s, 0, "{\n  \"width\": "@) is None) by {
        if 0 + "{\n  \"width\": "@.len() <= s.len() && s.subrange(
            0,
            "{\n  \"width\": "@.len() as int,
        ) == "{\n  \"width\": "@ {
            assert(s.subrange(0, "{\n  \"width\": "@.len() as int)[5] == s[5int]);
            assert(s[5] == a1[5]);
            assert(a1[5] == 'r');
            assert("{\n  \"width\": "@[5] == 'w');
        }
    }
    assert(s.subrange(0, n1) =~= a1);
    assert(spec_expect(s, 0, a1) == Option::Some(n1));
    assert(s.subrange(n1, n2) =~= d1);
    assert(s[n2] == a2[0] && a2[0] == ',');
    crate::digits::lemma_scan_u64_block(s, n1, a.rate as u64);
    assert(s.subrange(n2, n3) =~= a2);
    assert(spec_expect(s, n2, a2) == Option::Some(n3));
    assert(s.subrange(n3, n4) =~= d2);
    assert(s[n4] == a3[0] && a3[0] == ',');
    crate::digits::lemma_scan_u64_block(s, n3, a.channels as u64);
    assert(s.subrange(n4, n5) =~= a3);
    assert(spec_expect(s, n4, a3) == Option::Some(n5));
    assert(s.subrange(n5, n6) =~= f);
    lemma_scan_format_block(s, n5, a.format);
    assert(s.subrange(n6, n7) =~= a4);
    assert(spec_expect(s, n6, a4) == Option::Some(n7));
    assert(s.subrange(n7, n8) =~= d3);
    assert(s[n8] == a5[0] && a5[0] == ',');
    crate::digits::lemma_scan_u64_block(s, n7, a.frames as u64);
    assert(s.subrange(n8, n9) =~= a5);
    assert(spec_expect(s, n8, a5) == Option::Some(n9));
    assert(s.subrange(n9, n10) =~= pv);
    assert(s[n10] == a6[0] && a6[0] == '\n');
    lemma_scan_opt_u64_block(s, n9, a.pts_ms);
    assert(s.subrange(n10, n11) =~= a6);
    assert(spec_expect(s, n10, a6) == Option::Some(n11));
    assert((a.rate as u64) as u32 == a.rate);
    assert((a.channels as u64) as u32 == a.channels);
    assert((a.frames as u64) as usize == a.frames);
    assert(a.frames as u64 <= usize::MAX as u64);
    assert(spec_parse_audio(s) == Option::Some(
        MetaModel::Audio(
            AudioMetaModel {
                rate: a.rate,
                channels: a.channels,
                format: a.format,
                frames: a.frames,
                pts_ms: a.pts_ms,
            },
        ),
    ));
}

/// Round trip: writing a chunk's metadata sidecar and reading it back
/// reproduces every metadata field exactly, whatever the metadata — absent,
/// video, or audio.
pub proof fn lemma_sidecar_round_trip(m: MetaModel)
    ensures
        spec_parse_metadata(spec_render_metadata(m)) == Option::Some(m),
{
    match m {
        MetaModel::Missing => {
        },
        MetaModel::Video(v) => {
            lemma_round_trip_video(v);
        },
        MetaModel::Audio(a) => {
            lemma_round_trip_audio(a);
        },
    }
}

} // verus!
