//! GStreamer pipeline descriptions for transcode and demucs jobs.

use vstd::prelude::*;
use vstd::string::*;
use crate::job_types::{DemucsOptions, DemucsOptionsView, OutputFormat, TranscodeOptions};
use crate::paths::{join, join_path};
use crate::text::{chars_of, contains_sub, decimal, occurs_at, push_char, push_decimal, str_eq, string_from, strings_contain, strings_view, strs_contain};

verus! {

/// How one character of a path is written inside a quoted pipeline property: NUL is
/// dropped, backslash and double quote are escaped with a backslash.
pub open spec fn escape_char(c: char) -> Seq<char> {
    if c == '\0' {
        Seq::empty()
    } else if c == '\\' {
        seq!['\\', '\\']
    } else if c == '"' {
        seq!['\\', '"']
    } else {
        seq![c]
    }
}

/// A path escaped for a quoted pipeline property, character by character.
pub open spec fn escaped(s: Seq<char>) -> Seq<char>
    decreases s.len(),
{
    if s.len() == 0 {
        Seq::empty()
    } else {
        escaped(s.drop_last()) + escape_char(s.last())
    }
}

/// Reads an escaped property value back, left to right: a backslash stands for the
/// character after it.
pub open spec fn unescaped(t: Seq<char>) -> Seq<char>
    decreases t.len(),
{
    if t.len() == 0 {
        Seq::empty()
    } else if t[0] == '\\' && t.len() >= 2 {
        seq![t[1]] + unescaped(t.skip(2))
    } else {
        seq![t[0]] + unescaped(t.skip(1))
    }
}

/// A path with its NUL characters removed.
pub open spec fn without_nul(s: Seq<char>) -> Seq<char>
    decreases s.len(),
{
    if s.len() == 0 {
        Seq::empty()
    } else if s[0] == '\0' {
        without_nul(s.drop_first())
    } else {
        seq![s[0]] + without_nul(s.drop_first())
    }
}

proof fn lemma_escaped_concat(a: Seq<char>, b: Seq<char>)
    ensures
        escaped(a + b) == escaped(a) + escaped(b),
    decreases b.len(),
{
    if b.len() == 0 {
        assert(a + b =~= a);
        assert(escaped(a) + escaped(b) =~= escaped(a));
    } else {
        lemma_escaped_concat(a, b.drop_last());
        assert((a + b).drop_last() =~= a + b.drop_last());
        assert((a + b).last() == b.last());
        assert(escaped(a + b) =~= escaped(a) + escaped(b));
    }
}

/// Reading an escaped path back gives the path (without its NUL characters): no character
/// of a path can end the quoted property it is written in.
pub proof fn lemma_unescaped_escaped(s: Seq<char>)
    ensures
        unescaped(escaped(s)) == without_nul(s),
    decreases s.len(),
{
    if s.len() > 0 {
        let c = s[0];
        let rest = s.drop_first();
        assert(seq![c] + rest =~= s);
        lemma_escaped_concat(seq![c], rest);
        let one = seq![c];
        assert(one.len() == 1 && one.last() == c);
        assert(one.drop_last() =~= Seq::<char>::empty());
        assert(escaped(one.drop_last()) =~= Seq::<char>::empty());
        assert(escaped(one) =~= Seq::<char>::empty() + escape_char(c));
        assert(escaped(one) =~= escape_char(c));
        lemma_unescaped_escaped(rest);
        let e = escaped(rest);
        let t = escape_char(c) + e;
        assert(escaped(s) == t);
        if c == '\0' {
            assert(t =~= e);
        } else if c == '\\' || c == '"' {
            assert(t[0] == '\\');
            assert(t[1] == c);
            assert(t.skip(2) =~= e);
        } else {
            assert(t[0] == c);
            assert(t.skip(1) =~= e);
        }
    }
}

/// An escaped path holds no NUL, and each of its double quotes follows a backslash.
pub proof fn lemma_escaped_is_safe(s: Seq<char>)
    ensures
        forall|i: int| 0 <= i < escaped(s).len() ==> #[trigger] escaped(s)[i] != '\0',
        forall|i: int| 0 <= i < escaped(s).len() && #[trigger] escaped(s)[i] == '"' ==> i > 0 && escaped(s)[i - 1] == '\\',
    decreases s.len(),
{
    if s.len() > 0 {
        lemma_escaped_is_safe(s.drop_last());
        let p = escaped(s.drop_last());
        let e = escape_char(s.last());
        assert forall|i: int| 0 <= i < escaped(s).len() implies #[trigger] escaped(s)[i] != '\0' by {
            if i >= p.len() {
                assert(escaped(s)[i] == e[i - p.len()]);
            } else {
                assert(escaped(s)[i] == p[i]);
            }
        }
        assert forall|i: int| 0 <= i < escaped(s).len() && #[trigger] escaped(s)[i] == '"' implies i > 0 && escaped(s)[i - 1] == '\\' by {
            if i >= p.len() {
                assert(escaped(s)[i] == e[i - p.len()]);
                assert(escaped(s)[i - 1] == if i - 1 >= p.len() { e[i - 1 - p.len()] } else { p[i - 1] });
            } else {
                assert(escaped(s)[i] == p[i]);
                assert(escaped(s)[i - 1] == p[i - 1]);
            }
        }
    }
}

/// How many backslashes stand directly before position `i` of `t`.
pub open spec fn backslashes_before(t: Seq<char>, i: int) -> nat
    decreases i,
{
    if i <= 0 || i > t.len() || t[i - 1] != '\\' {
        0
    } else {
        1 + backslashes_before(t, i - 1)
    }
}

proof fn lemma_backslashes_in_prefix(p: Seq<char>, e: Seq<char>, i: int)
    requires
        0 <= i <= p.len(),
    ensures
        backslashes_before(p + e, i) == backslashes_before(p, i),
    decreases i,
{
    if i > 0 {
        assert((p + e)[i - 1] == p[i - 1]);
        lemma_backslashes_in_prefix(p, e, i - 1);
    }
}

/// In an escaped path every double quote follows an odd number of backslashes, so it is
/// always an escaped quote and never the end of the quoted property; the text also ends
/// after an even number of backslashes, so the closing quote written after it is not
/// escaped.
pub proof fn lemma_escaped_quotes_follow_odd_backslashes(s: Seq<char>)
    ensures
        forall|i: int| 0 <= i < escaped(s).len() && #[trigger] escaped(s)[i] == '"'
            ==> backslashes_before(escaped(s), i) % 2 == 1,
        backslashes_before(escaped(s), escaped(s).len() as int) % 2 == 0,
    decreases s.len(),
{
    if s.len() > 0 {
        lemma_escaped_quotes_follow_odd_backslashes(s.drop_last());
        let p = escaped(s.drop_last());
        let c = s.last();
        let e = escape_char(c);
        let t = escaped(s);
        assert(t == p + e);
        let n = p.len() as int;
        lemma_backslashes_in_prefix(p, e, n);
        assert forall|i: int| 0 <= i < t.len() && #[trigger] t[i] == '"' implies backslashes_before(t, i) % 2 == 1 by {
            if i < n {
                assert(t[i] == p[i]);
                lemma_backslashes_in_prefix(p, e, i);
            } else {
                assert(t[i] == e[i - n]);
                assert(c == '"' && i == n + 1);
                assert(t[n] == '\\');
                assert(backslashes_before(t, n + 1) == 1 + backslashes_before(t, n));
            }
        }
        if c == '\\' {
            assert(t[n] == '\\' && t[n + 1] == '\\');
            assert(backslashes_before(t, n + 1) == 1 + backslashes_before(t, n));
            assert(backslashes_before(t, n + 2) == 1 + backslashes_before(t, n + 1));
        } else if c == '"' {
            assert(t[n + 1] == '"');
        } else if c != '\0' {
            assert(t[n] == c);
        }
    }
}

/// Escapes a path for use inside a quoted pipeline property.
fn escape_path(path: &str) -> (r: String)
    ensures
        r@ == escaped(path@),
{
    let v = chars_of(path);
    let mut r = String::new();
    let mut i: usize = 0;
    while i < v.len()
        invariant
            v@ == path@,
            i <= v@.len(),
            r@ == escaped(v@.take(i as int)),
        decreases v@.len() - i,
    {
        let c = v[i];
        proof {
            assert(v@.take(i + 1).drop_last() =~= v@.take(i as int));
        }
        if c == '\0' {
        } else if c == '\\' {
            push_char(&mut r, '\\');
            push_char(&mut r, '\\');
        } else if c == '"' {
            push_char(&mut r, '\\');
            push_char(&mut r, '"');
        } else {
            push_char(&mut r, c);
        }
        i = i + 1;
        proof {
            assert(r@ =~= escaped(v@.take(i as int)));
        }
    }
    proof {
        assert(v@.take(v@.len() as int) =~= v@);
    }
    r
}

/// Bitrate in kbit/s with a default, multiplied to bit/s without leaving `u32`.
pub open spec fn bps_fits(kbps: Option<u32>, default: u32) -> bool {
    kbps.unwrap_or(default) * 1000 <= u32::MAX
}

/// The bitrates that the chosen format multiplies to bit/s fit in `u32`.
pub open spec fn transcode_fits(o: TranscodeOptions) -> bool {
    match o.output_format {
        OutputFormat::Mp4 | OutputFormat::Mkv => bps_fits(o.audio_bitrate_kbps, 128),
        OutputFormat::Webm => bps_fits(o.video_bitrate_kbps, 2000) && bps_fits(o.audio_bitrate_kbps, 128),
        OutputFormat::Ogg => bps_fits(o.audio_bitrate_kbps, 128),
        OutputFormat::Mp3 | OutputFormat::Flac => true,
    }
}

/// Whether the bitrates of `options` fit, as `build_transcode_pipeline` requires.
pub fn transcode_bitrates_fit(options: &TranscodeOptions) -> (r: bool)
    ensures
        r == transcode_fits(*options),
{
    let audio = match options.audio_bitrate_kbps { Some(b) => b, None => 128 };
    let video = match options.video_bitrate_kbps { Some(b) => b, None => 2000 };
    match options.output_format {
        OutputFormat::Mp4 | OutputFormat::Mkv | OutputFormat::Ogg => audio <= 4294967,
        OutputFormat::Webm => video <= 4294967 && audio <= 4294967,
        OutputFormat::Mp3 | OutputFormat::Flac => true,
    }
}

/// Optional scaling in front of the video encoder.
pub open spec fn video_scale(o: TranscodeOptions) -> Seq<char> {
    match (o.width, o.height) {
        (Some(w), Some(h)) => "videoscale ! video/x-raw,width="@ + decimal(w as nat) + ",height="@
            + decimal(h as nat) + " ! "@,
        (Some(w), None) => "videoscale ! video/x-raw,width="@ + decimal(w as nat) + " ! "@,
        (None, Some(h)) => "videoscale ! video/x-raw,height="@ + decimal(h as nat) + " ! "@,
        (None, None) => Seq::empty(),
    }
}

/// The H.264 encoder, preceded by the optional scaling.
pub open spec fn x264_encoder(o: TranscodeOptions) -> Seq<char> {
    video_scale(o) + "x264enc tune=zerolatency"@ + match o.video_bitrate_kbps {
        Some(b) => " bitrate="@ + decimal(b as nat),
        None => Seq::empty(),
    }
}

/// The AAC encoder.
pub open spec fn aac_encoder(o: TranscodeOptions) -> Seq<char> {
    "fdkaacenc bitrate="@ + decimal((o.audio_bitrate_kbps.unwrap_or(128) * 1000) as nat)
}

/// An H.264 + AAC pipeline into the given muxer.
pub open spec fn h264_aac_pipeline(input: Seq<char>, output: Seq<char>, o: TranscodeOptions, mux: Seq<char>) -> Seq<char> {
    "filesrc location=\""@ + input + "\" ! decodebin name=dec dec. ! queue ! videoconvert ! "@
        + x264_encoder(o) + " ! h264parse ! queue ! mux. dec. ! queue ! audioconvert ! audioresample ! "@
        + aac_encoder(o) + " ! queue ! mux. "@ + mux + " name=mux ! filesink location=\""@ + output + "\""@
}

pub open spec fn webm_pipeline(input: Seq<char>, output: Seq<char>, o: TranscodeOptions) -> Seq<char> {
    "filesrc location=\""@ + input + "\" ! decodebin name=dec dec. ! queue ! videoconvert ! vp8enc target-bitrate="@
        + decimal((o.video_bitrate_kbps.unwrap_or(2000) * 1000) as nat)
        + " deadline=1 ! queue ! mux. dec. ! queue ! audioconvert ! audioresample ! vorbisenc bitrate="@
        + decimal((o.audio_bitrate_kbps.unwrap_or(128) * 1000) as nat)
        + " ! queue ! mux. webmmux name=mux ! filesink location=\""@ + output + "\""@
}

pub open spec fn mp3_pipeline(input: Seq<char>, output: Seq<char>, o: TranscodeOptions) -> Seq<char> {
    "filesrc location=\""@ + input
        + "\" ! decodebin ! audioconvert ! audioresample ! lamemp3enc target=bitrate bitrate="@
        + decimal(o.audio_bitrate_kbps.unwrap_or(192) as nat) + " ! id3v2mux ! filesink location=\""@ + output
        + "\""@
}

pub open spec fn ogg_pipeline(input: Seq<char>, output: Seq<char>, o: TranscodeOptions) -> Seq<char> {
    "filesrc location=\""@ + input + "\" ! decodebin ! audioconvert ! audioresample ! vorbisenc bitrate="@
        + decimal((o.audio_bitrate_kbps.unwrap_or(128) * 1000) as nat) + " ! oggmux ! filesink location=\""@
        + output + "\""@
}

pub open spec fn flac_pipeline(input: Seq<char>, output: Seq<char>) -> Seq<char> {
    "filesrc location=\""@ + input + "\" ! decodebin ! audioconvert ! audioresample ! flacenc ! filesink location=\""@
        + output + "\""@
}

/// The transcode pipeline for already escaped input and output paths.
pub open spec fn transcode_pipeline_for(input: Seq<char>, output: Seq<char>, o: TranscodeOptions) -> Seq<char> {
    match o.output_format {
        OutputFormat::Mp4 => h264_aac_pipeline(input, output, o, "mp4mux"@),
        OutputFormat::Webm => webm_pipeline(input, output, o),
        OutputFormat::Mkv => h264_aac_pipeline(input, output, o, "matroskamux"@),
        OutputFormat::Mp3 => mp3_pipeline(input, output, o),
        OutputFormat::Ogg => ogg_pipeline(input, output, o),
        OutputFormat::Flac => flac_pipeline(input, output),
    }
}

proof fn lemma_occurs_between(a: Seq<char>, b: Seq<char>, c: Seq<char>)
    ensures
        occurs_at(a + b + c, b, a.len() as int),
        contains_sub(a + b + c, b),
{
    assert((a + b + c).subrange(a.len() as int, (a.len() + b.len()) as int) =~= b);
}

proof fn lemma_h264_pipeline_parts(input: Seq<char>, output: Seq<char>, o: TranscodeOptions, mux: Seq<char>)
    ensures
        h264_aac_pipeline(input, output, o, mux) == ("filesrc location=\""@ + input
            + "\" ! decodebin name=dec dec. ! queue ! videoconvert ! "@) + (video_scale(o)
            + "x264enc tune=zerolatency"@) + ((match o.video_bitrate_kbps {
            Some(b) => " bitrate="@ + decimal(b as nat),
            None => Seq::empty(),
        }) + " ! h264parse ! queue ! mux. dec. ! queue ! audioconvert ! audioresample ! "@ + aac_encoder(o)
            + " ! queue ! mux. "@ + mux + " name=mux ! filesink location=\""@ + output + "\""@),
{
    assert(h264_aac_pipeline(input, output, o, mux) =~= ("filesrc location=\""@ + input
            + "\" ! decodebin name=dec dec. ! queue ! videoconvert ! "@) + (video_scale(o)
            + "x264enc tune=zerolatency"@) + ((match o.video_bitrate_kbps {
            Some(b) => " bitrate="@ + decimal(b as nat),
            None => Seq::empty(),
        }) + " ! h264parse ! queue ! mux. dec. ! queue ! audioconvert ! audioresample ! "@ + aac_encoder(o)
            + " ! queue ! mux. "@ + mux + " name=mux ! filesink location=\""@ + output + "\""@));
}

/// The H.264 pipelines (mp4, mkv) scale to exactly the requested size: the caps right in
/// front of the encoder carry `width=` the requested width and `height=` the requested
/// height, whichever of the two are given.
pub proof fn lemma_h264_scaling_caps(input: Seq<char>, output: Seq<char>, o: TranscodeOptions)
    requires
        o.output_format == OutputFormat::Mp4 || o.output_format == OutputFormat::Mkv,
        o.width is Some || o.height is Some,
    ensures
        contains_sub(
            transcode_pipeline_for(input, output, o),
            match (o.width, o.height) {
                (Some(w), Some(h)) => "videoscale ! video/x-raw,width="@ + decimal(w as nat) + ",height="@
                    + decimal(h as nat) + " ! x264enc tune=zerolatency"@,
                (Some(w), None) => "videoscale ! video/x-raw,width="@ + decimal(w as nat)
                    + " ! x264enc tune=zerolatency"@,
                (None, _) => "videoscale ! video/x-raw,height="@ + decimal(o.height.unwrap() as nat)
                    + " ! x264enc tune=zerolatency"@,
            },
        ),
{
    let mux = if o.output_format == OutputFormat::Mp4 { "mp4mux"@ } else { "matroskamux"@ };
    lemma_h264_pipeline_parts(input, output, o, mux);
    let pre = "filesrc location=\""@ + input + "\" ! decodebin name=dec dec. ! queue ! videoconvert ! "@;
    let mid = video_scale(o) + "x264enc tune=zerolatency"@;
    let tail = (match o.video_bitrate_kbps {
        Some(b) => " bitrate="@ + decimal(b as nat),
        None => Seq::empty(),
    }) + " ! h264parse ! queue ! mux. dec. ! queue ! audioconvert ! audioresample ! "@ + aac_encoder(o)
        + " ! queue ! mux. "@ + mux + " name=mux ! filesink location=\""@ + output + "\""@;
    assert(transcode_pipeline_for(input, output, o) == pre + mid + tail);
    lemma_occurs_between(pre, mid, tail);
    reveal_strlit(" ! ");
    reveal_strlit("x264enc tune=zerolatency");
    reveal_strlit(" ! x264enc tune=zerolatency");
    assert(" ! "@ + "x264enc tune=zerolatency"@ =~= " ! x264enc tune=zerolatency"@);
    match (o.width, o.height) {
        (Some(w), Some(h)) => {
            assert(mid =~= "videoscale ! video/x-raw,width="@ + decimal(w as nat) + ",height="@
                + decimal(h as nat) + " ! x264enc tune=zerolatency"@);
        },
        (Some(w), None) => {
            assert(mid =~= "videoscale ! video/x-raw,width="@ + decimal(w as nat) + " ! x264enc tune=zerolatency"@);
        },
        (None, Some(h)) => {
            assert(mid =~= "videoscale ! video/x-raw,height="@ + decimal(h as nat) + " ! x264enc tune=zerolatency"@);
        },
        (None, None) => {},
    }
}

/// The bitrates reach the encoders they are meant for: in the H.264 pipelines (mp4, mkv)
/// the video bitrate, when given, follows `x264enc tune=zerolatency` in kbit/s and the
/// audio bitrate (128 kbit/s by default) is handed to the AAC encoder in bit/s; in the WebM
/// pipeline the video bitrate (2000 by default) goes to the VP8 encoder and the audio
/// bitrate (128 by default) to the Vorbis encoder, both in bit/s.
pub proof fn lemma_transcode_bitrates(input: Seq<char>, output: Seq<char>, o: TranscodeOptions)
    ensures
        (o.output_format == OutputFormat::Mp4 || o.output_format == OutputFormat::Mkv) ==> {
            &&& contains_sub(
                transcode_pipeline_for(input, output, o),
                "fdkaacenc bitrate="@ + decimal((o.audio_bitrate_kbps.unwrap_or(128) * 1000) as nat),
            )
            &&& (o.video_bitrate_kbps is Some ==> contains_sub(
                transcode_pipeline_for(input, output, o),
                "x264enc tune=zerolatency bitrate="@ + decimal(o.video_bitrate_kbps.unwrap() as nat),
            ))
        },
        o.output_format == OutputFormat::Webm ==> {
            &&& contains_sub(
                transcode_pipeline_for(input, output, o),
                "vp8enc target-bitrate="@ + decimal((o.video_bitrate_kbps.unwrap_or(2000) * 1000) as nat),
            )
            &&& contains_sub(
                transcode_pipeline_for(input, output, o),
                "vorbisenc bitrate="@ + decimal((o.audio_bitrate_kbps.unwrap_or(128) * 1000) as nat),
            )
        },
{
    let p = transcode_pipeline_for(input, output, o);
    if o.output_format == OutputFormat::Mp4 || o.output_format == OutputFormat::Mkv {
        let mux = if o.output_format == OutputFormat::Mp4 { "mp4mux"@ } else { "matroskamux"@ };
        assert(p == h264_aac_pipeline(input, output, o, mux));
        lemma_h264_audio_part(input, output, o, mux);
        if o.video_bitrate_kbps is Some {
            lemma_h264_video_bitrate_part(input, output, o, mux);
        }
    } else if o.output_format == OutputFormat::Webm {
        lemma_webm_parts(input, output, o);
    }
}

proof fn lemma_h264_audio_part(input: Seq<char>, output: Seq<char>, o: TranscodeOptions, mux: Seq<char>)
    ensures
        contains_sub(h264_aac_pipeline(input, output, o, mux), aac_encoder(o)),
{
    let a = "filesrc location=\""@ + input + "\" ! decodebin name=dec dec. ! queue ! videoconvert ! "@
        + x264_encoder(o) + " ! h264parse ! queue ! mux. dec. ! queue ! audioconvert ! audioresample ! "@;
    let c = " ! queue ! mux. "@ + mux + " name=mux ! filesink location=\""@ + output + "\""@;
    assert(h264_aac_pipeline(input, output, o, mux) =~= a + aac_encoder(o) + c);
    lemma_occurs_between(a, aac_encoder(o), c);
}

proof fn lemma_h264_video_bitrate_part(input: Seq<char>, output: Seq<char>, o: TranscodeOptions, mux: Seq<char>)
    requires
        o.video_bitrate_kbps is Some,
    ensures
        contains_sub(
            h264_aac_pipeline(input, output, o, mux),
            "x264enc tune=zerolatency bitrate="@ + decimal(o.video_bitrate_kbps.unwrap() as nat),
        ),
{
    let b = "x264enc tune=zerolatency"@ + " bitrate="@ + decimal(o.video_bitrate_kbps.unwrap() as nat);
    let a = "filesrc location=\""@ + input + "\" ! decodebin name=dec dec. ! queue ! videoconvert ! "@ + video_scale(o);
    let c = " ! h264parse ! queue ! mux. dec. ! queue ! audioconvert ! audioresample ! "@ + aac_encoder(o)
        + " ! queue ! mux. "@ + mux + " name=mux ! filesink location=\""@ + output + "\""@;
    assert(h264_aac_pipeline(input, output, o, mux) =~= a + b + c);
    lemma_occurs_between(a, b, c);
    reveal_strlit("x264enc tune=zerolatency");
    reveal_strlit(" bitrate=");
    reveal_strlit("x264enc tune=zerolatency bitrate=");
    assert(b =~= "x264enc tune=zerolatency bitrate="@ + decimal(o.video_bitrate_kbps.unwrap() as nat));
}

proof fn lemma_webm_parts(input: Seq<char>, output: Seq<char>, o: TranscodeOptions)
    ensures
        contains_sub(
            webm_pipeline(input, output, o),
            "vp8enc target-bitrate="@ + decimal((o.video_bitrate_kbps.unwrap_or(2000) * 1000) as nat),
        ),
        contains_sub(
            webm_pipeline(input, output, o),
            "vorbisenc bitrate="@ + decimal((o.audio_bitrate_kbps.unwrap_or(128) * 1000) as nat),
        ),
{
    let v = decimal((o.video_bitrate_kbps.unwrap_or(2000) * 1000) as nat);
    let au = decimal((o.audio_bitrate_kbps.unwrap_or(128) * 1000) as nat);
    reveal_strlit("\" ! decodebin name=dec dec. ! queue ! videoconvert ! vp8enc target-bitrate=");
    reveal_strlit("\" ! decodebin name=dec dec. ! queue ! videoconvert ! ");
    reveal_strlit("vp8enc target-bitrate=");
    reveal_strlit(" deadline=1 ! queue ! mux. dec. ! queue ! audioconvert ! audioresample ! vorbisenc bitrate=");
    reveal_strlit(" deadline=1 ! queue ! mux. dec. ! queue ! audioconvert ! audioresample ! ");
    reveal_strlit("vorbisenc bitrate=");
    let l1 = "\" ! decodebin name=dec dec. ! queue ! videoconvert ! "@;
    let l2 = " deadline=1 ! queue ! mux. dec. ! queue ! audioconvert ! audioresample ! "@;
    assert("\" ! decodebin name=dec dec. ! queue ! videoconvert ! vp8enc target-bitrate="@ =~= l1 + "vp8enc target-bitrate="@);
    assert(" deadline=1 ! queue ! mux. dec. ! queue ! audioconvert ! audioresample ! vorbisenc bitrate="@ =~= l2
        + "vorbisenc bitrate="@);
    let tail = " ! queue ! mux. webmmux name=mux ! filesink location=\""@ + output + "\""@;
    let p = webm_pipeline(input, output, o);
    let a1 = "filesrc location=\""@ + input + l1;
    let b1 = "vp8enc target-bitrate="@ + v;
    let c1 = l2 + "vorbisenc bitrate="@ + au + tail;
    assert(p =~= a1 + b1 + c1);
    lemma_occurs_between(a1, b1, c1);
    let a2 = a1 + b1 + l2;
    let b2 = "vorbisenc bitrate="@ + au;
    assert(p =~= a2 + b2 + tail);
    lemma_occurs_between(a2, b2, tail);
}

/// Build a GStreamer pipeline description for transcoding.
pub fn build_transcode_pipeline(input_path: &str, output_path: &str, options: &TranscodeOptions) -> (r: String)
    requires
        transcode_fits(*options),
    ensures
        r@ == transcode_pipeline_for(escaped(input_path@), escaped(output_path@), *options),
{
    let input = escape_path(input_path);
    let output = escape_path(output_path);
    match options.output_format {
        OutputFormat::Mp4 => build_mp4_pipeline(&input, &output, options),
        OutputFormat::Webm => build_webm_pipeline(&input, &output, options),
        OutputFormat::Mkv => build_mkv_pipeline(&input, &output, options),
        OutputFormat::Mp3 => build_mp3_pipeline(&input, &output, options),
        OutputFormat::Ogg => build_ogg_pipeline(&input, &output, options),
        OutputFormat::Flac => build_flac_pipeline(&input, &output, options),
    }
}

fn build_video_scale(options: &TranscodeOptions) -> (r: String)
    ensures
        r@ == video_scale(*options),
{
    let mut s = String::new();
    match (options.width, options.height) {
        (Some(w), Some(h)) => {
            s.append("videoscale ! video/x-raw,width=");
            push_decimal(&mut s, w as u64);
            s.append(",height=");
            push_decimal(&mut s, h as u64);
            s.append(" ! ");
        },
        (Some(w), None) => {
            s.append("videoscale ! video/x-raw,width=");
            push_decimal(&mut s, w as u64);
            s.append(" ! ");
        },
        (None, Some(h)) => {
            s.append("videoscale ! video/x-raw,height=");
            push_decimal(&mut s, h as u64);
            s.append(" ! ");
        },
        (None, None) => {},
    }
    proof {
        assert(s@ =~= video_scale(*options));
    }
    s
}

fn build_x264_encoder(options: &TranscodeOptions) -> (r: String)
    ensures
        r@ == x264_encoder(*options),
{
    let mut s = build_video_scale(options);
    s.append("x264enc tune=zerolatency");
    if let Some(bitrate) = options.video_bitrate_kbps {
        s.append(" bitrate=");
        push_decimal(&mut s, bitrate as u64);
    }
    proof {
        assert(s@ =~= x264_encoder(*options));
    }
    s
}

fn build_aac_encoder(options: &TranscodeOptions) -> (r: String)
    requires
        bps_fits(options.audio_bitrate_kbps, 128),
    ensures
        r@ == aac_encoder(*options),
{
    let bitrate = match options.audio_bitrate_kbps { Some(b) => b, None => 128 };
    let mut s = string_from("fdkaacenc bitrate=");
    push_decimal(&mut s, (bitrate * 1000) as u64);
    s
}

fn build_h264_aac_pipeline(input: &str, output: &str, options: &TranscodeOptions, mux: &str) -> (r: String)
    requires
        bps_fits(options.audio_bitrate_kbps, 128),
    ensures
        r@ == h264_aac_pipeline(input@, output@, *options, mux@),
{
    let video_enc = build_x264_encoder(options);
    let audio_enc = build_aac_encoder(options);
    let mut s = string_from("filesrc location=\"");
    s.append(input);
    s.append("\" ! decodebin name=dec dec. ! queue ! videoconvert ! ");
    s.append(video_enc.as_str());
    s.append(" ! h264parse ! queue ! mux. dec. ! queue ! audioconvert ! audioresample ! ");
    s.append(audio_enc.as_str());
    s.append(" ! queue ! mux. ");
    s.append(mux);
    s.append(" name=mux ! filesink location=\"");
    s.append(output);
    s.append("\"");
    s
}

fn build_mp4_pipeline(input: &str, output: &str, options: &TranscodeOptions) -> (r: String)
    requires
        bps_fits(options.audio_bitrate_kbps, 128),
    ensures
        r@ == h264_aac_pipeline(input@, output@, *options, "mp4mux"@),
{
    build_h264_aac_pipeline(input, output, options, "mp4mux")
}

fn build_mkv_pipeline(input: &str, output: &str, options: &TranscodeOptions) -> (r: String)
    requires
        bps_fits(options.audio_bitrate_kbps, 128),
    ensures
        r@ == h264_aac_pipeline(input@, output@, *options, "matroskamux"@),
{
    build_h264_aac_pipeline(input, output, options, "matroskamux")
}

fn build_webm_pipeline(input: &str, output: &str, options: &TranscodeOptions) -> (r: String)
    requires
        bps_fits(options.video_bitrate_kbps, 2000),
        bps_fits(options.audio_bitrate_kbps, 128),
    ensures
        r@ == webm_pipeline(input@, output@, *options),
{
    let video_bitrate = match options.video_bitrate_kbps { Some(b) => b, None => 2000 };
    let audio_bitrate = match options.audio_bitrate_kbps { Some(b) => b, None => 128 };
    let mut s = string_from("filesrc location=\"");
    s.append(input);
    s.append("\" ! decodebin name=dec dec. ! queue ! videoconvert ! vp8enc target-bitrate=");
    push_decimal(&mut s, (video_bitrate * 1000) as u64);
    s.append(" deadline=1 ! queue ! mux. dec. ! queue ! audioconvert ! audioresample ! vorbisenc bitrate=");
    push_decimal(&mut s, (audio_bitrate * 1000) as u64);
    s.append(" ! queue ! mux. webmmux name=mux ! filesink location=\"");
    s.append(output);
    s.append("\"");
    s
}

fn build_mp3_pipeline(input: &str, output: &str, options: &TranscodeOptions) -> (r: String)
    ensures
        r@ == mp3_pipeline(input@, output@, *options),
{
    let bitrate = match options.audio_bitrate_kbps { Some(b) => b, None => 192 };
    let mut s = string_from("filesrc location=\"");
    s.append(input);
    s.append("\" ! decodebin ! audioconvert ! audioresample ! lamemp3enc target=bitrate bitrate=");
    push_decimal(&mut s, bitrate as u64);
    s.append(" ! id3v2mux ! filesink location=\"");
    s.append(output);
    s.append("\"");
    s
}

fn build_ogg_pipeline(input: &str, output: &str, options: &TranscodeOptions) -> (r: String)
    requires
        bps_fits(options.audio_bitrate_kbps, 128),
    ensures
        r@ == ogg_pipeline(input@, output@, *options),
{
    let bitrate = match options.audio_bitrate_kbps { Some(b) => b, None => 128 };
    let mut s = string_from("filesrc location=\"");
    s.append(input);
    s.append("\" ! decodebin ! audioconvert ! audioresample ! vorbisenc bitrate=");
    push_decimal(&mut s, (bitrate * 1000) as u64);
    s.append(" ! oggmux ! filesink location=\"");
    s.append(output);
    s.append("\"");
    s
}

fn build_flac_pipeline(input: &str, output: &str, _options: &TranscodeOptions) -> (r: String)
    ensures
        r@ == flac_pipeline(input@, output@),
{
    let mut s = string_from("filesrc location=\"");
    s.append(input);
    s.append("\" ! decodebin ! audioconvert ! audioresample ! flacenc ! filesink location=\"");
    s.append(output);
    s.append("\"");
    s
}

/// The requested stems that the model knows, in request order.
pub open spec fn keep_known(requested: Seq<Seq<char>>, known: Seq<Seq<char>>) -> Seq<Seq<char>>
    decreases requested.len(),
{
    if requested.len() == 0 {
        Seq::empty()
    } else {
        let r = keep_known(requested.drop_last(), known);
        if known.contains(requested.last()) {
            r.push(requested.last())
        } else {
            r
        }
    }
}

/// The stems a demucs job extracts: all the model's stems when none are requested,
/// otherwise the requested ones that the model produces.
pub open spec fn selected_stems(o: DemucsOptionsView) -> Seq<Seq<char>> {
    if o.stems.len() == 0 {
        o.model.stem_names()
    } else {
        keep_known(o.stems, o.model.stem_names())
    }
}

/// Every extracted stem is one the model produces.
pub proof fn lemma_selected_stems_are_known(o: DemucsOptionsView)
    ensures
        forall|i: int| 0 <= i < selected_stems(o).len() ==> o.model.stem_names().contains(#[trigger] selected_stems(o)[i]),
{
    if o.stems.len() == 0 {
        assert forall|i: int| 0 <= i < selected_stems(o).len() implies o.model.stem_names().contains(#[trigger] selected_stems(o)[i]) by {
            assert(o.model.stem_names()[i] == selected_stems(o)[i]);
        }
    } else {
        lemma_keep_known(o.stems, o.model.stem_names());
    }
}

proof fn lemma_keep_known(requested: Seq<Seq<char>>, known: Seq<Seq<char>>)
    ensures
        forall|i: int| 0 <= i < keep_known(requested, known).len() ==> known.contains(#[trigger] keep_known(requested, known)[i]),
    decreases requested.len(),
{
    if requested.len() > 0 {
        lemma_keep_known(requested.drop_last(), known);
        let r = keep_known(requested.drop_last(), known);
        assert forall|i: int| 0 <= i < keep_known(requested, known).len() implies known.contains(#[trigger] keep_known(requested, known)[i]) by {
            if i < r.len() {
                assert(keep_known(requested, known)[i] == r[i]);
            }
        }
    }
}

/// Get the stems to extract based on options.
fn get_stems_for_pipeline(options: &DemucsOptions) -> (r: Vec<String>)
    ensures
        strings_view(r@) == selected_stems(options@),
{
    let model_stems = options.model.stems();
    let mut r: Vec<String> = Vec::new();
    if options.stems.len() == 0 {
        let mut i: usize = 0;
        while i < model_stems.len()
            invariant
                model_stems@.map_values(|s: &str| s@) == options.model.stem_names(),
                i <= model_stems@.len(),
                strings_view(r@) == options.model.stem_names().take(i as int),
            decreases model_stems@.len() - i,
        {
            proof {
                assert(model_stems@.map_values(|s: &str| s@)[i as int] == model_stems@[i as int]@);
            }
            let ghost before = r@;
            let item = string_from(model_stems[i]);
            r.push(item);
            proof {
                assert(strings_view(r@) =~= strings_view(before).push(item@));
                assert(options.model.stem_names().take(i + 1) =~= options.model.stem_names().take(i as int).push(item@));
            }
            i = i + 1;
        }
        proof {
            assert(options.model.stem_names().take(model_stems@.len() as int) =~= options.model.stem_names());
        }
    } else {
        let mut i: usize = 0;
        while i < options.stems.len()
            invariant
                model_stems@.map_values(|s: &str| s@) == options.model.stem_names(),
                i <= options.stems@.len(),
                strings_view(r@) == keep_known(strings_view(options.stems@).take(i as int), options.model.stem_names()),
            decreases options.stems@.len() - i,
        {
            proof {
                assert(strings_view(options.stems@).take(i + 1).drop_last() =~= strings_view(options.stems@).take(i as int));
                assert(strings_view(options.stems@).take(i + 1).last() == options.stems@[i as int]@);
            }
            if strs_contain(&model_stems, options.stems[i].as_str()) {
                r.push(options.stems[i].clone());
                proof {
                    assert(strings_view(r@) =~= keep_known(strings_view(options.stems@).take(i + 1), options.model.stem_names()));
                }
            }
            i = i + 1;
        }
        proof {
            assert(strings_view(options.stems@).take(options.stems@.len() as int) =~= strings_view(options.stems@));
        }
    }
    r
}

/// Whether stems are written as FLAC (otherwise WAV).
pub open spec fn is_flac(o: DemucsOptionsView) -> bool {
    o.output_format == "flac"@
}

/// The file extension of the stems.
pub open spec fn stem_extension(o: DemucsOptionsView) -> Seq<char> {
    if is_flac(o) { "flac"@ } else { "wav"@ }
}

/// The encoder of the stems.
pub open spec fn stem_encoder(o: DemucsOptionsView) -> Seq<char> {
    if is_flac(o) { "flacenc"@ } else { "wavenc"@ }
}

/// One output branch per stem, each writing `dir/stem.ext`.
pub open spec fn stem_branches(stems: Seq<Seq<char>>, dir: Seq<char>, ext: Seq<char>, encoder: Seq<char>) -> Seq<char>
    decreases stems.len(),
{
    if stems.len() == 0 {
        Seq::empty()
    } else {
        stem_branches(stems.drop_last(), dir, ext, encoder) + " demucs.src_"@ + stems.last()
            + " ! queue ! audioconvert ! "@ + encoder + " ! filesink location=\""@ + dir + "/"@ + stems.last()
            + "."@ + ext + "\""@
    }
}

/// The model's pads that no branch uses, each ending in a fakesink.
pub open spec fn unused_pads(model_stems: Seq<Seq<char>>, used: Seq<Seq<char>>) -> Seq<char>
    decreases model_stems.len(),
{
    if model_stems.len() == 0 {
        Seq::empty()
    } else {
        unused_pads(model_stems.drop_last(), used) + if used.contains(model_stems.last()) {
            Seq::empty()
        } else {
            " demucs.src_"@ + model_stems.last() + " ! fakesink"@
        }
    }
}

/// The demucs pipeline for an already escaped input path and output directory.
pub open spec fn demucs_pipeline_for(input: Seq<char>, dir: Seq<char>, o: DemucsOptionsView) -> Seq<char> {
    "filesrc location=\""@ + input
        + "\" ! decodebin ! audioconvert ! audioresample ! audio/x-raw,format=F32LE,rate=44100,channels=2 ! demucs model="@
        + o.model.name() + " name=demucs"@
        + stem_branches(selected_stems(o), dir, stem_extension(o), stem_encoder(o))
        + unused_pads(o.model.stem_names(), selected_stems(o))
}

fn flac_selected(options: &DemucsOptions) -> (r: bool)
    ensures
        r == is_flac(options@),
{
    str_eq(options.output_format.as_str(), "flac")
}

/// Build a GStreamer pipeline description for demucs source separation.
///
/// The demucs element has one src pad per stem; each selected stem is written to its own
/// file in the output directory and the remaining pads end in a fakesink.
pub fn build_demucs_pipeline(input_path: &str, output_dir: &str, options: &DemucsOptions) -> (r: String)
    ensures
        r@ == demucs_pipeline_for(escaped(input_path@), escaped(output_dir@), options@),
{
    let input = escape_path(input_path);
    let output_dir_str = escape_path(output_dir);
    let stems = get_stems_for_pipeline(options);
    let flac = flac_selected(options);
    let ext = if flac { "flac" } else { "wav" };
    let encoder = if flac { "flacenc" } else { "wavenc" };
    let mut pipeline = string_from("filesrc location=\"");
    pipeline.append(input.as_str());
    pipeline.append(
        "\" ! decodebin ! audioconvert ! audioresample ! audio/x-raw,format=F32LE,rate=44100,channels=2 ! demucs model=",
    );
    pipeline.append(options.model.as_str());
    pipeline.append(" name=demucs");
    let ghost header = pipeline@;
    let ghost sel = strings_view(stems@);
    let mut i: usize = 0;
    while i < stems.len()
        invariant
            i <= stems@.len(),
            sel == strings_view(stems@),
            ext@ == stem_extension(options@),
            encoder@ == stem_encoder(options@),
            pipeline@ == header + stem_branches(sel.take(i as int), output_dir_str@, ext@, encoder@),
        decreases stems@.len() - i,
    {
        proof {
            assert(sel.take(i + 1).drop_last() =~= sel.take(i as int));
            assert(sel.take(i + 1).last() == stems@[i as int]@);
        }
        pipeline.append(" demucs.src_");
        pipeline.append(stems[i].as_str());
        pipeline.append(" ! queue ! audioconvert ! ");
        pipeline.append(encoder);
        pipeline.append(" ! filesink location=\"");
        pipeline.append(output_dir_str.as_str());
        pipeline.append("/");
        pipeline.append(stems[i].as_str());
        pipeline.append(".");
        pipeline.append(ext);
        pipeline.append("\"");
        i = i + 1;
        proof {
            assert(pipeline@ =~= header + stem_branches(sel.take(i as int), output_dir_str@, ext@, encoder@));
        }
    }
    proof {
        assert(sel.take(stems@.len() as int) =~= sel);
    }
    let ghost middle = pipeline@;
    let all_model_stems = options.model.stems();
    let ghost ms = all_model_stems@.map_values(|s: &str| s@);
    let mut j: usize = 0;
    while j < all_model_stems.len()
        invariant
            j <= all_model_stems@.len(),
            ms == all_model_stems@.map_values(|s: &str| s@),
            sel == strings_view(stems@),
            pipeline@ == middle + unused_pads(ms.take(j as int), sel),
        decreases all_model_stems@.len() - j,
    {
        proof {
            assert(ms.take(j + 1).drop_last() =~= ms.take(j as int));
            assert(ms.take(j + 1).last() == all_model_stems@[j as int]@);
        }
        let stem = all_model_stems[j];
        if !strings_contain(&stems, stem) {
            pipeline.append(" demucs.src_");
            pipeline.append(stem);
            pipeline.append(" ! fakesink");
        }
        j = j + 1;
        proof {
            assert(pipeline@ =~= middle + unused_pads(ms.take(j as int), sel));
        }
    }
    proof {
        assert(ms.take(all_model_stems@.len() as int) =~= ms);
    }
    pipeline
}

/// The expected output files of a demucs job: each selected stem with `dir/stem.ext`.
pub open spec fn demucs_output_files(dir: Seq<char>, o: DemucsOptionsView) -> Seq<(Seq<char>, Seq<char>)> {
    selected_stems(o).map_values(|s: Seq<char>| (s, join_path(dir, s + "."@ + stem_extension(o))))
}

/// The views of a list of (stem, path) pairs.
pub open spec fn pairs_view(v: Seq<(String, String)>) -> Seq<(Seq<char>, Seq<char>)> {
    v.map_values(|p: (String, String)| (p.0@, p.1@))
}

/// Get the expected output stem files for a demucs job.
pub fn get_demucs_output_files(output_dir: &str, options: &DemucsOptions) -> (r: Vec<(String, String)>)
    ensures
        pairs_view(r@) == demucs_output_files(output_dir@, options@),
{
    let stems = get_stems_for_pipeline(options);
    let ext = if flac_selected(options) { "flac" } else { "wav" };
    let ghost sel = strings_view(stems@);
    let mut r: Vec<(String, String)> = Vec::new();
    let mut i: usize = 0;
    while i < stems.len()
        invariant
            i <= stems@.len(),
            sel == strings_view(stems@),
            sel == selected_stems(options@),
            ext@ == stem_extension(options@),
            pairs_view(r@) == demucs_output_files(output_dir@, options@).take(i as int),
        decreases stems@.len() - i,
    {
        let mut file = stems[i].clone();
        file.append(".");
        file.append(ext);
        let path = join(output_dir, file.as_str());
        proof {
            assert(sel[i as int] == stems@[i as int]@);
            let e = demucs_output_files(output_dir@, options@)[i as int];
            assert(e == (sel[i as int], join_path(output_dir@, sel[i as int] + "."@ + stem_extension(options@))));
            assert(file@ == sel[i as int] + "."@ + stem_extension(options@));
        }
        let ghost before = r@;
        let pair = (stems[i].clone(), path);
        r.push(pair);
        proof {
            assert(pairs_view(r@) =~= pairs_view(before).push((pair.0@, pair.1@)));
            assert(demucs_output_files(output_dir@, options@).take(i + 1) =~= demucs_output_files(output_dir@, options@).take(i as int).push((pair.0@, pair.1@)));
        }
        i = i + 1;
    }
    proof {
        assert(demucs_output_files(output_dir@, options@).take(stems@.len() as int) =~= demucs_output_files(output_dir@, options@));
    }
    r
}

} // verus!

verus! {

/// One output branch per listed file: the stem's pad, then the encoder writing to the path.
pub open spec fn file_branches(files: Seq<(Seq<char>, Seq<char>)>, encoder: Seq<char>) -> Seq<char>
    decreases files.len(),
{
    if files.len() == 0 {
        Seq::empty()
    } else {
        file_branches(files.drop_last(), encoder) + " demucs.src_"@ + files.last().0
            + " ! queue ! audioconvert ! "@ + encoder + " ! filesink location=\""@ + files.last().1 + "\""@
    }
}

/// A path that escaping leaves unchanged: no NUL, backslash or double quote.
pub open spec fn is_plain_path(s: Seq<char>) -> bool {
    forall|i: int| 0 <= i < s.len() ==> #[trigger] s[i] != '\0' && s[i] != '\\' && s[i] != '"'
}

proof fn lemma_escaped_plain(s: Seq<char>)
    requires
        is_plain_path(s),
    ensures
        escaped(s) == s,
    decreases s.len(),
{
    if s.len() > 0 {
        assert(is_plain_path(s.drop_last())) by {
            assert forall|i: int| 0 <= i < s.drop_last().len() implies #[trigger] s.drop_last()[i] != '\0'
                && s.drop_last()[i] != '\\' && s.drop_last()[i] != '"' by {
                assert(s.drop_last()[i] == s[i]);
            }
        }
        lemma_escaped_plain(s.drop_last());
        assert(s.last() == s[s.len() - 1]);
        assert(s.drop_last() + seq![s.last()] =~= s);
    }
}

proof fn lemma_branches_are_file_branches(stems: Seq<Seq<char>>, dir: Seq<char>, ext: Seq<char>, encoder: Seq<char>)
    requires
        dir.len() > 0,
        dir.last() != '/',
        forall|i: int| 0 <= i < stems.len() ==> !((#[trigger] stems[i]).len() > 0 && stems[i][0] == '/'),
    ensures
        stem_branches(stems, dir, ext, encoder)
            == file_branches(stems.map_values(|s: Seq<char>| (s, join_path(dir, s + "."@ + ext))), encoder),
    decreases stems.len(),
{
    let files = stems.map_values(|s: Seq<char>| (s, join_path(dir, s + "."@ + ext)));
    if stems.len() > 0 {
        lemma_branches_are_file_branches(stems.drop_last(), dir, ext, encoder);
        assert(files.drop_last() =~= stems.drop_last().map_values(|s: Seq<char>| (s, join_path(dir, s + "."@ + ext))));
        let s = stems.last();
        assert(s == stems[stems.len() - 1]);
        reveal_strlit(".");
        reveal_strlit("/");
        let p = s + "."@ + ext;
        assert(!(p.len() > 0 && p[0] == '/')) by {
            if s.len() == 0 {
                assert(p[0] == '.');
            } else {
                assert(p[0] == s[0]);
            }
        }
        assert(join_path(dir, p) =~= dir + "/"@ + s + "."@ + ext);
        assert(files.last() == (s, join_path(dir, p)));
        assert(stem_branches(stems, dir, ext, encoder) =~= file_branches(files, encoder));
    }
}

/// The files a demucs pipeline writes are exactly the files listed for the job: its output
/// branches are, in order, one per listed (stem, path) pair, the stem's pad feeding the
/// encoder that writes that path. It holds for an output directory that escaping leaves
/// unchanged and that does not end in a separator.
pub proof fn lemma_pipeline_writes_listed_files(input: Seq<char>, dir: Seq<char>, o: DemucsOptionsView)
    requires
        dir.len() > 0,
        dir.last() != '/',
        is_plain_path(dir),
    ensures
        demucs_pipeline_for(input, escaped(dir), o) == "filesrc location=\""@ + input
            + "\" ! decodebin ! audioconvert ! audioresample ! audio/x-raw,format=F32LE,rate=44100,channels=2 ! demucs model="@
            + o.model.name() + " name=demucs"@
            + file_branches(demucs_output_files(dir, o), stem_encoder(o))
            + unused_pads(o.model.stem_names(), selected_stems(o)),
{
    lemma_escaped_plain(dir);
    lemma_selected_stems_are_known(o);
    let stems = selected_stems(o);
    reveal_strlit("vocals");
    reveal_strlit("drums");
    reveal_strlit("bass");
    reveal_strlit("guitar");
    reveal_strlit("piano");
    reveal_strlit("other");
    assert forall|i: int| 0 <= i < stems.len() implies !((#[trigger] stems[i]).len() > 0 && stems[i][0] == '/') by {
        let names = o.model.stem_names();
        assert(names.contains(stems[i]));
        let j = choose|j: int| 0 <= j < names.len() && names[j] == stems[i];
        assert(names[j][0] != '/');
    }
    lemma_branches_are_file_branches(stems, dir, stem_extension(o), stem_encoder(o));
}

} // verus!
