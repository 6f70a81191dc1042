//! Canonical binary encoding of the widget model and device state.
//!
//! Sums are encoded as a one-byte discriminant followed by the payload,
//! sequences as a count varint followed by the elements, and the leaves as
//! in [`crate::wire`]. Both endpoints use exactly this codec, and every
//! shape carries a round-trip proof: decoding an encoding, wherever it is
//! embedded, gives the encoded value back.

use crate::config::DeviceConfig;
use crate::errors::TransError;
use crate::layout::MemoriLayout;
use crate::state::{MemoriState, MemoriStateV};
use crate::widgets::{
    Bus, BusV, Clock, Github, GithubV, MemoriWidget, MemoriWidgetV, Name, NameV, UpdateFrequency,
    Weather, WeatherIcon, WidgetId, WidgetKind, WidgetKindV,
};
use crate::wire::{
    dec_bool, dec_i32, dec_string, dec_u32, dec_u8, dec_usize, dec_varint, decodes_to, enc_bool,
    enc_i32, enc_string, enc_u32, enc_u8, enc_usize, enc_varint, lemma_bool_round_trip,
    lemma_i32_round_trip, lemma_string_round_trip, lemma_u32_round_trip, lemma_u8_round_trip,
    lemma_usize_round_trip, lemma_varint_round_trip, spec_dec_bool, spec_dec_i32, spec_dec_string,
    spec_dec_u32, spec_dec_u8, spec_dec_usize, spec_dec_varint, spec_enc_bool, spec_enc_chars,
    spec_enc_i32, spec_enc_u32, spec_enc_u8, spec_enc_usize, spec_enc_varint,
};
use vstd::prelude::*;

verus! {

// ---------------------------------------------------------------------------
// Widget identifiers
// ---------------------------------------------------------------------------

pub open spec fn spec_enc_widget_id(v: WidgetId) -> Seq<u8> {
    spec_enc_u32(v.0)
}

pub open spec fn spec_dec_widget_id(s: Seq<u8>) -> Option<(WidgetId, Seq<u8>)> {
    match spec_dec_u32(s) {
        Some(vp) => Some((WidgetId(vp.0), vp.1)),
        None => None,
    }
}

pub proof fn lemma_widget_id_round_trip(v: WidgetId, rest: Seq<u8>)
    ensures
        spec_dec_widget_id(spec_enc_widget_id(v) + rest) == Some((v, rest)),
{
    lemma_u32_round_trip(v.0, rest);
}

pub fn enc_widget_id(out: &mut Vec<u8>, v: WidgetId)
    ensures
        final(out)@ == old(out)@ + spec_enc_widget_id(v),
{
    enc_u32(out, v.0);
}

pub fn dec_widget_id(s: &[u8], pos: usize) -> (r: Option<(WidgetId, usize)>)
    requires
        pos <= s.len(),
    ensures
        decodes_to::<WidgetId>(s@, pos as int, spec_dec_widget_id(s@.skip(pos as int)), r),
{
    match dec_u32(s, pos) {
        Some((n, p)) => Some((WidgetId(n), p)),
        None => None,
    }
}

// ---------------------------------------------------------------------------
// Update frequencies
// ---------------------------------------------------------------------------

pub open spec fn spec_enc_frequency(v: UpdateFrequency) -> Seq<u8> {
    match v {
        UpdateFrequency::Seconds(n) => spec_enc_u8(0) + spec_enc_u32(n),
        UpdateFrequency::Minutes(n) => spec_enc_u8(1) + spec_enc_u32(n),
        UpdateFrequency::Hours(n) => spec_enc_u8(2) + spec_enc_u32(n),
        UpdateFrequency::Never => spec_enc_u8(3),
    }
}

pub open spec fn spec_dec_frequency(s: Seq<u8>) -> Option<(UpdateFrequency, Seq<u8>)> {
    match spec_dec_u8(s) {
        Some(tp) => {
            if tp.0 == 3 {
                Some((UpdateFrequency::Never, tp.1))
            } else if tp.0 <= 2 {
                match spec_dec_u32(tp.1) {
                    Some(vp) => Some(
                        (
                            if tp.0 == 0 {
                                UpdateFrequency::Seconds(vp.0)
                            } else if tp.0 == 1 {
                                UpdateFrequency::Minutes(vp.0)
                            } else {
                                UpdateFrequency::Hours(vp.0)
                            },
                            vp.1,
                        ),
                    ),
                    None => None,
                }
            } else {
                None
            }
        },
        None => None,
    }
}

pub proof fn lemma_frequency_round_trip(v: UpdateFrequency, rest: Seq<u8>)
    ensures
        spec_dec_frequency(spec_enc_frequency(v) + rest) == Some((v, rest)),
{
    match v {
        UpdateFrequency::Seconds(n) => {
            assert(spec_enc_frequency(v) + rest =~= spec_enc_u8(0) + (spec_enc_u32(n) + rest));
            lemma_u8_round_trip(0, spec_enc_u32(n) + rest);
            lemma_u32_round_trip(n, rest);
        },
        UpdateFrequency::Minutes(n) => {
            assert(spec_enc_frequency(v) + rest =~= spec_enc_u8(1) + (spec_enc_u32(n) + rest));
            lemma_u8_round_trip(1, spec_enc_u32(n) + rest);
            lemma_u32_round_trip(n, rest);
        },
        UpdateFrequency::Hours(n) => {
            assert(spec_enc_frequency(v) + rest =~= spec_enc_u8(2) + (spec_enc_u32(n) + rest));
            lemma_u8_round_trip(2, spec_enc_u32(n) + rest);
            lemma_u32_round_trip(n, rest);
        },
        UpdateFrequency::Never => {
            lemma_u8_round_trip(3, rest);
        },
    }
}

pub fn enc_frequency(out: &mut Vec<u8>, v: UpdateFrequency)
    ensures
        final(out)@ == old(out)@ + spec_enc_frequency(v),
{
    match v {
        UpdateFrequency::Seconds(n) => {
            enc_u8(out, 0);
            enc_u32(out, n);
            assert(out@ =~= old(out)@ + spec_enc_frequency(v));
        },
        UpdateFrequency::Minutes(n) => {
            enc_u8(out, 1);
            enc_u32(out, n);
            assert(out@ =~= old(out)@ + spec_enc_frequency(v));
        },
        UpdateFrequency::Hours(n) => {
            enc_u8(out, 2);
            enc_u32(out, n);
            assert(out@ =~= old(out)@ + spec_enc_frequency(v));
        },
        UpdateFrequency::Never => {
            enc_u8(out, 3);
        },
    }
}

pub fn dec_frequency(s: &[u8], pos: usize) -> (r: Option<(UpdateFrequency, usize)>)
    requires
        pos <= s.len(),
    ensures
        decodes_to::<UpdateFrequency>(s@, pos as int, spec_dec_frequency(s@.skip(pos as int)), r),
{
    match dec_u8(s, pos) {
        Some((tag, p)) => {
            if tag == 3 {
                Some((UpdateFrequency::Never, p))
            } else if tag <= 2 {
                match dec_u32(s, p) {
                    Some((n, q)) => Some(
                        (
                            if tag == 0 {
                                UpdateFrequency::Seconds(n)
                            } else if tag == 1 {
                                UpdateFrequency::Minutes(n)
                            } else {
                                UpdateFrequency::Hours(n)
                            },
                            q,
                        ),
                    ),
                    None => None,
                }
            } else {
                None
            }
        },
        None => None,
    }
}

// ---------------------------------------------------------------------------
// Clocks
// ---------------------------------------------------------------------------

pub open spec fn spec_enc_clock(v: Clock) -> Seq<u8> {
    spec_enc_u32(v.seconds) + spec_enc_u32(v.minutes) + spec_enc_u32(v.hours)
}

pub open spec fn spec_dec_clock(s: Seq<u8>) -> Option<(Clock, Seq<u8>)> {
    match spec_dec_u32(s) {
        Some(sp) => match spec_dec_u32(sp.1) {
            Some(mp) => match spec_dec_u32(mp.1) {
                Some(hp) => Some((Clock { seconds: sp.0, minutes: mp.0, hours: hp.0 }, hp.1)),
                None => None,
            },
            None => None,
        },
        None => None,
    }
}

pub proof fn lemma_clock_round_trip(v: Clock, rest: Seq<u8>)
    ensures
        spec_dec_clock(spec_enc_clock(v) + rest) == Some((v, rest)),
{
    assert(spec_enc_clock(v) + rest =~= spec_enc_u32(v.seconds) + (spec_enc_u32(v.minutes) + (
    spec_enc_u32(v.hours) + rest)));
    lemma_u32_round_trip(v.seconds, spec_enc_u32(v.minutes) + (spec_enc_u32(v.hours) + rest));
    lemma_u32_round_trip(v.minutes, spec_enc_u32(v.hours) + rest);
    lemma_u32_round_trip(v.hours, rest);
}

pub fn enc_clock(out: &mut Vec<u8>, v: &Clock)
    ensures
        final(out)@ == old(out)@ + spec_enc_clock(*v),
{
    enc_u32(out, v.seconds);
    enc_u32(out, v.minutes);
    enc_u32(out, v.hours);
    assert(out@ =~= old(out)@ + spec_enc_clock(*v));
}

pub fn dec_clock(s: &[u8], pos: usize) -> (r: Option<(Clock, usize)>)
    requires
        pos <= s.len(),
    ensures
        decodes_to::<Clock>(s@, pos as int, spec_dec_clock(s@.skip(pos as int)), r),
{
    match dec_u32(s, pos) {
        Some((seconds, p1)) => match dec_u32(s, p1) {
            Some((minutes, p2)) => match dec_u32(s, p2) {
                Some((hours, p3)) => Some((Clock { seconds, minutes, hours }, p3)),
                None => None,
            },
            None => None,
        },
        None => None,
    }
}

// ---------------------------------------------------------------------------
// Weather
// ---------------------------------------------------------------------------

pub open spec fn spec_enc_icon(v: WeatherIcon) -> Seq<u8> {
    match v {
        WeatherIcon::Sun => spec_enc_u8(0),
        WeatherIcon::Cloudy => spec_enc_u8(1),
        WeatherIcon::Rainy => spec_enc_u8(2),
        WeatherIcon::Snowy => spec_enc_u8(3),
    }
}

pub open spec fn spec_dec_icon(s: Seq<u8>) -> Option<(WeatherIcon, Seq<u8>)> {
    match spec_dec_u8(s) {
        Some(tp) => {
            if tp.0 == 0 {
                Some((WeatherIcon::Sun, tp.1))
            } else if tp.0 == 1 {
                Some((WeatherIcon::Cloudy, tp.1))
            } else if tp.0 == 2 {
                Some((WeatherIcon::Rainy, tp.1))
            } else if tp.0 == 3 {
                Some((WeatherIcon::Snowy, tp.1))
            } else {
                None
            }
        },
        None => None,
    }
}

pub proof fn lemma_icon_round_trip(v: WeatherIcon, rest: Seq<u8>)
    ensures
        spec_dec_icon(spec_enc_icon(v) + rest) == Some((v, rest)),
{
    match v {
        WeatherIcon::Sun => lemma_u8_round_trip(0, rest),
        WeatherIcon::Cloudy => lemma_u8_round_trip(1, rest),
        WeatherIcon::Rainy => lemma_u8_round_trip(2, rest),
        WeatherIcon::Snowy => lemma_u8_round_trip(3, rest),
    }
}

pub fn enc_icon(out: &mut Vec<u8>, v: WeatherIcon)
    ensures
        final(out)@ == old(out)@ + spec_enc_icon(v),
{
    match v {
        WeatherIcon::Sun => enc_u8(out, 0),
        WeatherIcon::Cloudy => enc_u8(out, 1),
        WeatherIcon::Rainy => enc_u8(out, 2),
        WeatherIcon::Snowy => enc_u8(out, 3),
    }
}

pub fn dec_icon(s: &[u8], pos: usize) -> (r: Option<(WeatherIcon, usize)>)
    requires
        pos <= s.len(),
    ensures
        decodes_to::<WeatherIcon>(s@, pos as int, spec_dec_icon(s@.skip(pos as int)), r),
{
    match dec_u8(s, pos) {
        Some((tag, p)) => {
            if tag == 0 {
                Some((WeatherIcon::Sun, p))
            } else if tag == 1 {
                Some((WeatherIcon::Cloudy, p))
            } else if tag == 2 {
                Some((WeatherIcon::Rainy, p))
            } else if tag == 3 {
                Some((WeatherIcon::Snowy, p))
            } else {
                None
            }
        },
        None => None,
    }
}

pub open spec fn spec_enc_weather(v: Weather) -> Seq<u8> {
    spec_enc_i32(v.temp_deci) + spec_enc_icon(v.icon)
}

pub open spec fn spec_dec_weather(s: Seq<u8>) -> Option<(Weather, Seq<u8>)> {
    match spec_dec_i32(s) {
        Some(tp) => match spec_dec_icon(tp.1) {
            Some(ip) => Some((Weather { temp_deci: tp.0, icon: ip.0 }, ip.1)),
            None => None,
        },
        None => None,
    }
}

pub proof fn lemma_weather_round_trip(v: Weather, rest: Seq<u8>)
    ensures
        spec_dec_weather(spec_enc_weather(v) + rest) == Some((v, rest)),
{
    assert(spec_enc_weather(v) + rest =~= spec_enc_i32(v.temp_deci) + (spec_enc_icon(v.icon)
        + rest));
    lemma_i32_round_trip(v.temp_deci, spec_enc_icon(v.icon) + rest);
    lemma_icon_round_trip(v.icon, rest);
}

pub fn enc_weather(out: &mut Vec<u8>, v: &Weather)
    ensures
        final(out)@ == old(out)@ + spec_enc_weather(*v),
{
    enc_i32(out, v.temp_deci);
    enc_icon(out, v.icon);
    assert(out@ =~= old(out)@ + spec_enc_weather(*v));
}

pub fn dec_weather(s: &[u8], pos: usize) -> (r: Option<(Weather, usize)>)
    requires
        pos <= s.len(),
    ensures
        decodes_to::<Weather>(s@, pos as int, spec_dec_weather(s@.skip(pos as int)), r),
{
    match dec_i32(s, pos) {
        Some((temp_deci, p1)) => match dec_icon(s, p1) {
            Some((icon, p2)) => Some((Weather { temp_deci, icon }, p2)),
            None => None,
        },
        None => None,
    }
}

// ---------------------------------------------------------------------------
// Names and buses
// ---------------------------------------------------------------------------

pub open spec fn spec_enc_name(v: Name) -> Seq<u8> {
    spec_enc_chars(v.name@)
}

pub open spec fn spec_dec_name(s: Seq<u8>) -> Option<(NameV, Seq<u8>)> {
    match spec_dec_string(s) {
        Some(vp) => Some((NameV { name: vp.0 }, vp.1)),
        None => None,
    }
}

pub proof fn lemma_name_round_trip(v: Name, rest: Seq<u8>)
    ensures
        spec_dec_name(spec_enc_name(v) + rest) == Some((v@, rest)),
{
    lemma_string_round_trip(v.name@, rest);
}

pub fn enc_name(out: &mut Vec<u8>, v: &Name)
    ensures
        final(out)@ == old(out)@ + spec_enc_name(*v),
{
    enc_string(out, self_str(&v.name));
}

pub fn dec_name(s: &[u8], pos: usize) -> (r: Option<(Name, usize)>)
    requires
        pos <= s.len(),
    ensures
        decodes_to::<Name>(s@, pos as int, spec_dec_name(s@.skip(pos as int)), r),
{
    match dec_string(s, pos) {
        Some((name, p)) => Some((Name { name }, p)),
        None => None,
    }
}

/// Borrow a `String` as a `&str`.
fn self_str(v: &String) -> (r: &str)
    ensures
        r@ == v@,
{
    v.as_str()
}

pub open spec fn spec_enc_bus(v: Bus) -> Seq<u8> {
    spec_enc_chars(v.route@) + spec_enc_chars(v.prediction@)
}

pub open spec fn spec_dec_bus(s: Seq<u8>) -> Option<(BusV, Seq<u8>)> {
    match spec_dec_string(s) {
        Some(rp) => match spec_dec_string(rp.1) {
            Some(pp) => Some((BusV { route: rp.0, prediction: pp.0 }, pp.1)),
            None => None,
        },
        None => None,
    }
}

pub proof fn lemma_bus_round_trip(v: Bus, rest: Seq<u8>)
    ensures
        spec_dec_bus(spec_enc_bus(v) + rest) == Some((v@, rest)),
{
    assert(spec_enc_bus(v) + rest =~= spec_enc_chars(v.route@) + (spec_enc_chars(v.prediction@)
        + rest));
    lemma_string_round_trip(v.route@, spec_enc_chars(v.prediction@) + rest);
    lemma_string_round_trip(v.prediction@, rest);
}

pub fn enc_bus(out: &mut Vec<u8>, v: &Bus)
    ensures
        final(out)@ == old(out)@ + spec_enc_bus(*v),
{
    enc_string(out, self_str(&v.route));
    enc_string(out, self_str(&v.prediction));
    assert(out@ =~= old(out)@ + spec_enc_bus(*v));
}

pub fn dec_bus(s: &[u8], pos: usize) -> (r: Option<(Bus, usize)>)
    requires
        pos <= s.len(),
    ensures
        decodes_to::<Bus>(s@, pos as int, spec_dec_bus(s@.skip(pos as int)), r),
{
    match dec_string(s, pos) {
        Some((route, p1)) => match dec_string(s, p1) {
            Some((prediction, p2)) => Some((Bus { route, prediction }, p2)),
            None => None,
        },
        None => None,
    }
}

// ---------------------------------------------------------------------------
// Optional strings
// ---------------------------------------------------------------------------

pub open spec fn spec_enc_opt_chars(v: Option<Seq<char>>) -> Seq<u8> {
    match v {
        None => spec_enc_u8(0),
        Some(cs) => spec_enc_u8(1) + spec_enc_chars(cs),
    }
}

pub open spec fn spec_dec_opt_string(s: Seq<u8>) -> Option<(Option<Seq<char>>, Seq<u8>)> {
    match spec_dec_u8(s) {
        Some(tp) => {
            if tp.0 == 0 {
                Some((None, tp.1))
            } else if tp.0 == 1 {
                match spec_dec_string(tp.1) {
                    Some(vp) => Some((Some(vp.0), vp.1)),
                    None => None,
                }
            } else {
                None
            }
        },
        None => None,
    }
}

pub proof fn lemma_opt_string_round_trip(v: Option<Seq<char>>, rest: Seq<u8>)
    ensures
        spec_dec_opt_string(spec_enc_opt_chars(v) + rest) == Some((v, rest)),
{
    match v {
        None => lemma_u8_round_trip(0, rest),
        Some(cs) => {
            assert(spec_enc_opt_chars(v) + rest =~= spec_enc_u8(1) + (spec_enc_chars(cs) + rest));
            lemma_u8_round_trip(1, spec_enc_chars(cs) + rest);
            lemma_string_round_trip(cs, rest);
        },
    }
}

pub fn enc_opt_string(out: &mut Vec<u8>, v: &Option<String>)
    ensures
        final(out)@ == old(out)@ + spec_enc_opt_chars(match v {
            Some(x) => Some(x@),
            None => None,
        }),
{
    match v {
        None => enc_u8(out, 0),
        Some(x) => {
            enc_u8(out, 1);
            enc_string(out, self_str(x));
            assert(out@ =~= old(out)@ + spec_enc_opt_chars(Some(x@)));
        },
    }
}

pub fn dec_opt_string(s: &[u8], pos: usize) -> (r: Option<(Option<String>, usize)>)
    requires
        pos <= s.len(),
    ensures
        match spec_dec_opt_string(s@.skip(pos as int)) {
            Some(vp) => match r {
                Some(t) => (match t.0 {
                    Some(x) => Some(x@),
                    None => None,
                }) == vp.0 && pos <= t.1 <= s.len() && s@.skip(t.1 as int) == vp.1,
                None => false,
            },
            None => r is None,
        },
{
    match dec_u8(s, pos) {
        Some((tag, p)) => {
            if tag == 0 {
                Some((None, p))
            } else if tag == 1 {
                match dec_string(s, p) {
                    Some((x, q)) => Some((Some(x), q)),
                    None => None,
                }
            } else {
                None
            }
        },
        None => None,
    }
}

// ---------------------------------------------------------------------------
// A week of commit counts
// ---------------------------------------------------------------------------

pub open spec fn spec_enc_commits(c: Seq<i32>) -> Seq<u8>
    recommends
        c.len() == 7,
{
    spec_enc_i32(c[0]) + spec_enc_i32(c[1]) + spec_enc_i32(c[2]) + spec_enc_i32(c[3])
        + spec_enc_i32(c[4]) + spec_enc_i32(c[5]) + spec_enc_i32(c[6])
}

pub open spec fn spec_dec_commits(s: Seq<u8>) -> Option<(Seq<i32>, Seq<u8>)> {
    match spec_dec_i32(s) {
        Some(p0) => match spec_dec_i32(p0.1) {
            Some(p1) => match spec_dec_i32(p1.1) {
                Some(p2) => match spec_dec_i32(p2.1) {
                    Some(p3) => match spec_dec_i32(p3.1) {
                        Some(p4) => match spec_dec_i32(p4.1) {
                            Some(p5) => match spec_dec_i32(p5.1) {
                                Some(p6) => Some(
                                    (seq![p0.0, p1.0, p2.0, p3.0, p4.0, p5.0, p6.0], p6.1),
                                ),
                                None => None,
                            },
                            None => None,
                        },
                        None => None,
                    },
                    None => None,
                },
                None => None,
            },
            None => None,
        },
        None => None,
    }
}

#[verifier::rlimit(60)]
pub proof fn lemma_commits_round_trip(c: Seq<i32>, rest: Seq<u8>)
    requires
        c.len() == 7,
    ensures
        spec_dec_commits(spec_enc_commits(c) + rest) == Some((c, rest)),
{
    let e0 = spec_enc_i32(c[0]);
    let e1 = spec_enc_i32(c[1]);
    let e2 = spec_enc_i32(c[2]);
    let e3 = spec_enc_i32(c[3]);
    let e4 = spec_enc_i32(c[4]);
    let e5 = spec_enc_i32(c[5]);
    let e6 = spec_enc_i32(c[6]);
    assert(spec_enc_commits(c) + rest =~= e0 + (e1 + (e2 + (e3 + (e4 + (e5 + (e6 + rest)))))));
    lemma_i32_round_trip(c[0], e1 + (e2 + (e3 + (e4 + (e5 + (e6 + rest))))));
    lemma_i32_round_trip(c[1], e2 + (e3 + (e4 + (e5 + (e6 + rest)))));
    lemma_i32_round_trip(c[2], e3 + (e4 + (e5 + (e6 + rest))));
    lemma_i32_round_trip(c[3], e4 + (e5 + (e6 + rest)));
    lemma_i32_round_trip(c[4], e5 + (e6 + rest));
    lemma_i32_round_trip(c[5], e6 + rest);
    lemma_i32_round_trip(c[6], rest);
    assert(seq![c[0], c[1], c[2], c[3], c[4], c[5], c[6]] =~= c);
}

pub fn enc_commits(out: &mut Vec<u8>, c: &[i32; 7])
    ensures
        final(out)@ == old(out)@ + spec_enc_commits(c@),
{
    enc_i32(out, c[0]);
    enc_i32(out, c[1]);
    enc_i32(out, c[2]);
    enc_i32(out, c[3]);
    enc_i32(out, c[4]);
    enc_i32(out, c[5]);
    enc_i32(out, c[6]);
    assert(out@ =~= old(out)@ + spec_enc_commits(c@));
}

pub fn dec_commits(s: &[u8], pos: usize) -> (r: Option<([i32; 7], usize)>)
    requires
        pos <= s.len(),
    ensures
        match spec_dec_commits(s@.skip(pos as int)) {
            Some(vp) => match r {
                Some(t) => t.0@ == vp.0 && pos <= t.1 <= s.len() && s@.skip(t.1 as int) == vp.1,
                None => false,
            },
            None => r is None,
        },
{
    match dec_i32(s, pos) {
        Some((a0, p0)) => match dec_i32(s, p0) {
            Some((a1, p1)) => match dec_i32(s, p1) {
                Some((a2, p2)) => match dec_i32(s, p2) {
                    Some((a3, p3)) => match dec_i32(s, p3) {
                        Some((a4, p4)) => match dec_i32(s, p4) {
                            Some((a5, p5)) => match dec_i32(s, p5) {
                                Some((a6, p6)) => {
                                    let arr: [i32; 7] = [a0, a1, a2, a3, a4, a5, a6];
                                    proof {
                                        assert(arr@ =~= seq![a0, a1, a2, a3, a4, a5, a6]);
                                    }
                                    Some((arr, p6))
                                },
                                None => None,
                            },
                            None => None,
                        },
                        None => None,
                    },
                    None => None,
                },
                None => None,
            },
            None => None,
        },
        None => None,
    }
}

// ---------------------------------------------------------------------------
// Github widgets
// ---------------------------------------------------------------------------

pub open spec fn spec_enc_github(v: Github) -> Seq<u8> {
    spec_enc_chars(v.username@) + spec_enc_opt_chars(match v.repo {
        Some(x) => Some(x@),
        None => None,
    }) + spec_enc_u32(v.open_issues) + spec_enc_u32(v.open_prs) + spec_enc_u32(v.stars)
        + spec_enc_u32(v.notifications) + spec_enc_commits(v.commits@) + spec_enc_usize(v.weekday)
}

pub open spec fn spec_dec_github(s: Seq<u8>) -> Option<(GithubV, Seq<u8>)> {
    match spec_dec_string(s) {
        Some(up) => match spec_dec_opt_string(up.1) {
            Some(rp) => match spec_dec_u32(rp.1) {
                Some(ip) => match spec_dec_u32(ip.1) {
                    Some(pp) => match spec_dec_u32(pp.1) {
                        Some(sp) => match spec_dec_u32(sp.1) {
                            Some(np) => match spec_dec_commits(np.1) {
                                Some(cp) => match spec_dec_usize(cp.1) {
                                    Some(wp) => Some(
                                        (
                                            GithubV {
                                                username: up.0,
                                                repo: rp.0,
                                                open_issues: ip.0,
                                                open_prs: pp.0,
                                                stars: sp.0,
                                                notifications: np.0,
                                                commits: cp.0,
                                                weekday: wp.0,
                                            },
                                            wp.1,
                                        ),
                                    ),
                                    None => None,
                                },
                                None => None,
                            },
                            None => None,
                        },
                        None => None,
                    },
                    None => None,
                },
                None => None,
            },
            None => None,
        },
        None => None,
    }
}

#[verifier::rlimit(60)]
pub proof fn lemma_github_round_trip(v: Github, rest: Seq<u8>)
    ensures
        spec_dec_github(spec_enc_github(v) + rest) == Some((v@, rest)),
{
    let repo_view: Option<Seq<char>> = match v.repo {
        Some(x) => Some(x@),
        None => None,
    };
    let e0 = spec_enc_chars(v.username@);
    let e1 = spec_enc_opt_chars(repo_view);
    let e2 = spec_enc_u32(v.open_issues);
    let e3 = spec_enc_u32(v.open_prs);
    let e4 = spec_enc_u32(v.stars);
    let e5 = spec_enc_u32(v.notifications);
    let e6 = spec_enc_commits(v.commits@);
    let e7 = spec_enc_usize(v.weekday);
    assert(spec_enc_github(v) + rest =~= e0 + (e1 + (e2 + (e3 + (e4 + (e5 + (e6 + (e7
        + rest))))))));
    lemma_string_round_trip(v.username@, e1 + (e2 + (e3 + (e4 + (e5 + (e6 + (e7 + rest)))))));
    lemma_opt_string_round_trip(repo_view, e2 + (e3 + (e4 + (e5 + (e6 + (e7 + rest))))));
    lemma_u32_round_trip(v.open_issues, e3 + (e4 + (e5 + (e6 + (e7 + rest)))));
    lemma_u32_round_trip(v.open_prs, e4 + (e5 + (e6 + (e7 + rest))));
    lemma_u32_round_trip(v.stars, e5 + (e6 + (e7 + rest)));
    lemma_u32_round_trip(v.notifications, e6 + (e7 + rest));
    lemma_commits_round_trip(v.commits@, e7 + rest);
    lemma_usize_round_trip(v.weekday, rest);
}

pub fn enc_github(out: &mut Vec<u8>, v: &Github)
    ensures
        final(out)@ == old(out)@ + spec_enc_github(*v),
{
    enc_string(out, self_str(&v.username));
    enc_opt_string(out, &v.repo);
    enc_u32(out, v.open_issues);
    enc_u32(out, v.open_prs);
    enc_u32(out, v.stars);
    enc_u32(out, v.notifications);
    enc_commits(out, &v.commits);
    enc_usize(out, v.weekday);
    assert(out@ =~= old(out)@ + spec_enc_github(*v));
}

pub fn dec_github(s: &[u8], pos: usize) -> (r: Option<(Github, usize)>)
    requires
        pos <= s.len(),
    ensures
        decodes_to::<Github>(s@, pos as int, spec_dec_github(s@.skip(pos as int)), r),
{
    match dec_string(s, pos) {
        Some((username, p0)) => match dec_opt_string(s, p0) {
            Some((repo, p1)) => match dec_u32(s, p1) {
                Some((open_issues, p2)) => match dec_u32(s, p2) {
                    Some((open_prs, p3)) => match dec_u32(s, p3) {
                        Some((stars, p4)) => match dec_u32(s, p4) {
                            Some((notifications, p5)) => match dec_commits(s, p5) {
                                Some((commits, p6)) => match dec_usize(s, p6) {
                                    Some((weekday, p7)) => Some(
                                        (
                                            Github {
                                                username,
                                                repo,
                                                open_issues,
                                                open_prs,
                                                stars,
                                                notifications,
                                                commits,
                                                weekday,
                                            },
                                            p7,
                                        ),
                                    ),
                                    None => None,
                                },
                                None => None,
                            },
                            None => None,
                        },
                        None => None,
                    },
                    None => None,
                },
                None => None,
            },
            None => None,
        },
        None => None,
    }
}

// ---------------------------------------------------------------------------
// Widget kinds and whole widgets
// ---------------------------------------------------------------------------

pub open spec fn spec_enc_kind(v: WidgetKind) -> Seq<u8> {
    match v {
        WidgetKind::Name(n) => spec_enc_u8(0) + spec_enc_name(n),
        WidgetKind::Clock(c) => spec_enc_u8(1) + spec_enc_clock(c),
        WidgetKind::Github(g) => spec_enc_u8(2) + spec_enc_github(g),
        WidgetKind::Weather(w) => spec_enc_u8(3) + spec_enc_weather(w),
        WidgetKind::Bus(b) => spec_enc_u8(4) + spec_enc_bus(b),
    }
}

pub open spec fn spec_dec_kind(s: Seq<u8>) -> Option<(WidgetKindV, Seq<u8>)> {
    match spec_dec_u8(s) {
        Some(tp) => {
            if tp.0 == 0 {
                match spec_dec_name(tp.1) {
                    Some(vp) => Some((WidgetKindV::Name(vp.0), vp.1)),
                    None => None,
                }
            } else if tp.0 == 1 {
                match spec_dec_clock(tp.1) {
                    Some(vp) => Some((WidgetKindV::Clock(vp.0), vp.1)),
                    None => None,
                }
            } else if tp.0 == 2 {
                match spec_dec_github(tp.1) {
                    Some(vp) => Some((WidgetKindV::Github(vp.0), vp.1)),
                    None => None,
                }
            } else if tp.0 == 3 {
                match spec_dec_weather(tp.1) {
                    Some(vp) => Some((WidgetKindV::Weather(vp.0), vp.1)),
                    None => None,
                }
            } else if tp.0 == 4 {
                match spec_dec_bus(tp.1) {
                    Some(vp) => Some((WidgetKindV::Bus(vp.0), vp.1)),
                    None => None,
                }
            } else {
                None
            }
        },
        None => None,
    }
}

#[verifier::rlimit(100)]
pub proof fn lemma_kind_round_trip(v: WidgetKind, rest: Seq<u8>)
    ensures
        spec_dec_kind(spec_enc_kind(v) + rest) == Some((v@, rest)),
{
    match v {
        WidgetKind::Name(n) => {
            assert(spec_enc_kind(v) + rest =~= spec_enc_u8(0) + (spec_enc_name(n) + rest));
            lemma_u8_round_trip(0, spec_enc_name(n) + rest);
            lemma_name_round_trip(n, rest);
        },
        WidgetKind::Clock(c) => {
            assert(spec_enc_kind(v) + rest =~= spec_enc_u8(1) + (spec_enc_clock(c) + rest));
            lemma_u8_round_trip(1, spec_enc_clock(c) + rest);
            lemma_clock_round_trip(c, rest);
        },
        WidgetKind::Github(g) => {
            assert(spec_enc_kind(v) + rest =~= spec_enc_u8(2) + (spec_enc_github(g) + rest));
            lemma_u8_round_trip(2, spec_enc_github(g) + rest);
            lemma_github_round_trip(g, rest);
        },
        WidgetKind::Weather(w) => {
            assert(spec_enc_kind(v) + rest =~= spec_enc_u8(3) + (spec_enc_weather(w) + rest));
            lemma_u8_round_trip(3, spec_enc_weather(w) + rest);
            lemma_weather_round_trip(w, rest);
        },
        WidgetKind::Bus(b) => {
            assert(spec_enc_kind(v) + rest =~= spec_enc_u8(4) + (spec_enc_bus(b) + rest));
            lemma_u8_round_trip(4, spec_enc_bus(b) + rest);
            lemma_bus_round_trip(b, rest);
        },
    }
}

pub fn enc_kind(out: &mut Vec<u8>, v: &WidgetKind)
    ensures
        final(out)@ == old(out)@ + spec_enc_kind(*v),
{
    match v {
        WidgetKind::Name(n) => {
            enc_u8(out, 0);
            enc_name(out, n);
        },
        WidgetKind::Clock(c) => {
            enc_u8(out, 1);
            enc_clock(out, c);
        },
        WidgetKind::Github(g) => {
            enc_u8(out, 2);
            enc_github(out, g);
        },
        WidgetKind::Weather(w) => {
            enc_u8(out, 3);
            enc_weather(out, w);
        },
        WidgetKind::Bus(b) => {
            enc_u8(out, 4);
            enc_bus(out, b);
        },
    }
    assert(out@ =~= old(out)@ + spec_enc_kind(*v));
}

pub fn dec_kind(s: &[u8], pos: usize) -> (r: Option<(WidgetKind, usize)>)
    requires
        pos <= s.len(),
    ensures
        decodes_to::<WidgetKind>(s@, pos as int, spec_dec_kind(s@.skip(pos as int)), r),
{
    match dec_u8(s, pos) {
        Some((tag, p)) => {
            if tag == 0 {
                match dec_name(s, p) {
                    Some((n, q)) => Some((WidgetKind::Name(n), q)),
                    None => None,
                }
            } else if tag == 1 {
                match dec_clock(s, p) {
                    Some((c, q)) => Some((WidgetKind::Clock(c), q)),
                    None => None,
                }
            } else if tag == 2 {
                match dec_github(s, p) {
                    Some((g, q)) => Some((WidgetKind::Github(g), q)),
                    None => None,
                }
            } else if tag == 3 {
                match dec_weather(s, p) {
                    Some((w, q)) => Some((WidgetKind::Weather(w), q)),
                    None => None,
                }
            } else if tag == 4 {
                match dec_bus(s, p) {
                    Some((b, q)) => Some((WidgetKind::Bus(b), q)),
                    None => None,
                }
            } else {
                None
            }
        },
        None => None,
    }
}

pub open spec fn spec_enc_widget(v: MemoriWidget) -> Seq<u8> {
    spec_enc_widget_id(v.id) + spec_enc_kind(v.kind) + spec_enc_frequency(v.remote_update_frequency)
        + spec_enc_frequency(v.local_update_frequency)
}

pub open spec fn spec_dec_widget(s: Seq<u8>) -> Option<(MemoriWidgetV, Seq<u8>)> {
    match spec_dec_widget_id(s) {
        Some(ip) => match spec_dec_kind(ip.1) {
            Some(kp) => match spec_dec_frequency(kp.1) {
                Some(rp) => match spec_dec_frequency(rp.1) {
                    Some(lp) => Some(
                        (
                            MemoriWidgetV {
                                id: ip.0,
                                kind: kp.0,
                                remote_update_frequency: rp.0,
                                local_update_frequency: lp.0,
                            },
                            lp.1,
                        ),
                    ),
                    None => None,
                },
                None => None,
            },
            None => None,
        },
        None => None,
    }
}

pub proof fn lemma_widget_round_trip(v: MemoriWidget, rest: Seq<u8>)
    ensures
        spec_dec_widget(spec_enc_widget(v) + rest) == Some((v@, rest)),
{
    let e0 = spec_enc_widget_id(v.id);
    let e1 = spec_enc_kind(v.kind);
    let e2 = spec_enc_frequency(v.remote_update_frequency);
    let e3 = spec_enc_frequency(v.local_update_frequency);
    assert(spec_enc_widget(v) + rest =~= e0 + (e1 + (e2 + (e3 + rest))));
    lemma_widget_id_round_trip(v.id, e1 + (e2 + (e3 + rest)));
    lemma_kind_round_trip(v.kind, e2 + (e3 + rest));
    lemma_frequency_round_trip(v.remote_update_frequency, e3 + rest);
    lemma_frequency_round_trip(v.local_update_frequency, rest);
}

pub fn enc_widget(out: &mut Vec<u8>, v: &MemoriWidget)
    ensures
        final(out)@ == old(out)@ + spec_enc_widget(*v),
{
    enc_widget_id(out, v.id);
    enc_kind(out, &v.kind);
    enc_frequency(out, v.remote_update_frequency);
    enc_frequency(out, v.local_update_frequency);
    assert(out@ =~= old(out)@ + spec_enc_widget(*v));
}

pub fn dec_widget(s: &[u8], pos: usize) -> (r: Option<(MemoriWidget, usize)>)
    requires
        pos <= s.len(),
    ensures
        decodes_to::<MemoriWidget>(s@, pos as int, spec_dec_widget(s@.skip(pos as int)), r),
{
    match dec_widget_id(s, pos) {
        Some((id, p0)) => match dec_kind(s, p0) {
            Some((kind, p1)) => match dec_frequency(s, p1) {
                Some((remote_update_frequency, p2)) => match dec_frequency(s, p2) {
                    Some((local_update_frequency, p3)) => Some(
                        (
                            MemoriWidget {
                                id,
                                kind,
                                remote_update_frequency,
                                local_update_frequency,
                            },
                            p3,
                        ),
                    ),
                    None => None,
                },
                None => None,
            },
            None => None,
        },
        None => None,
    }
}

// ---------------------------------------------------------------------------
// Screen layouts
// ---------------------------------------------------------------------------

pub open spec fn spec_enc_layout(v: MemoriLayout) -> Seq<u8> {
    match v {
        MemoriLayout::Full(a) => spec_enc_u8(0) + spec_enc_widget_id(a),
        MemoriLayout::VSplit { left, right } => spec_enc_u8(1) + spec_enc_widget_id(left)
            + spec_enc_widget_id(right),
        MemoriLayout::HSplit { top, bottom } => spec_enc_u8(2) + spec_enc_widget_id(top)
            + spec_enc_widget_id(bottom),
        MemoriLayout::VSplitWithRightHSplit { left, right_top, right_bottom } => spec_enc_u8(3)
            + spec_enc_widget_id(left) + spec_enc_widget_id(right_top) + spec_enc_widget_id(
            right_bottom,
        ),
        MemoriLayout::HSplitWithTopVSplit { bottom, top_right, top_left } => spec_enc_u8(4)
            + spec_enc_widget_id(bottom) + spec_enc_widget_id(top_right) + spec_enc_widget_id(
            top_left,
        ),
        MemoriLayout::VSplitWithLeftHSplit { left_top, left_bottom, right } => spec_enc_u8(5)
            + spec_enc_widget_id(left_top) + spec_enc_widget_id(left_bottom) + spec_enc_widget_id(
            right,
        ),
        MemoriLayout::HSplitWithBottomVSplit { top, bottom_left, bottom_right } => spec_enc_u8(6)
            + spec_enc_widget_id(top) + spec_enc_widget_id(bottom_left) + spec_enc_widget_id(
            bottom_right,
        ),
        MemoriLayout::Fourths { top_left, top_right, bottom_left, bottom_right } => spec_enc_u8(7)
            + spec_enc_widget_id(top_left) + spec_enc_widget_id(top_right) + spec_enc_widget_id(
            bottom_left,
        ) + spec_enc_widget_id(bottom_right),
    }
}

/// Decode `k` widget identifiers in a row (layouts carry up to four).
pub open spec fn spec_dec_ids(s: Seq<u8>, k: nat) -> Option<(Seq<WidgetId>, Seq<u8>)>
    decreases k,
{
    if k == 0 {
        Some((Seq::empty(), s))
    } else {
        match spec_dec_widget_id(s) {
            Some(vp) => match spec_dec_ids(vp.1, (k - 1) as nat) {
                Some(rp) => Some((seq![vp.0] + rp.0, rp.1)),
                None => None,
            },
            None => None,
        }
    }
}

pub open spec fn spec_dec_layout(s: Seq<u8>) -> Option<(MemoriLayout, Seq<u8>)> {
    match spec_dec_u8(s) {
        Some(tp) => {
            let tag = tp.0;
            if tag == 0 {
                match spec_dec_ids(tp.1, 1) {
                    Some(vp) => Some((MemoriLayout::Full(vp.0[0]), vp.1)),
                    None => None,
                }
            } else if tag == 1 {
                match spec_dec_ids(tp.1, 2) {
                    Some(vp) => Some(
                        (MemoriLayout::VSplit { left: vp.0[0], right: vp.0[1] }, vp.1),
                    ),
                    None => None,
                }
            } else if tag == 2 {
                match spec_dec_ids(tp.1, 2) {
                    Some(vp) => Some(
                        (MemoriLayout::HSplit { top: vp.0[0], bottom: vp.0[1] }, vp.1),
                    ),
                    None => None,
                }
            } else if tag == 3 {
                match spec_dec_ids(tp.1, 3) {
                    Some(vp) => Some(
                        (
                            MemoriLayout::VSplitWithRightHSplit {
                                left: vp.0[0],
                                right_top: vp.0[1],
                                right_bottom: vp.0[2],
                            },
                            vp.1,
                        ),
                    ),
                    None => None,
                }
            } else if tag == 4 {
                match spec_dec_ids(tp.1, 3) {
                    Some(vp) => Some(
                        (
                            MemoriLayout::HSplitWithTopVSplit {
                                bottom: vp.0[0],
                                top_right: vp.0[1],
                                top_left: vp.0[2],
                            },
                            vp.1,
                        ),
                    ),
                    None => None,
                }
            } else if tag == 5 {
                match spec_dec_ids(tp.1, 3) {
                    Some(vp) => Some(
                        (
                            MemoriLayout::VSplitWithLeftHSplit {
                                left_top: vp.0[0],
                                left_bottom: vp.0[1],
                                right: vp.0[2],
                            },
                            vp.1,
                        ),
                    ),
                    None => None,
                }
            } else if tag == 6 {
                match spec_dec_ids(tp.1, 3) {
                    Some(vp) => Some(
                        (
                            MemoriLayout::HSplitWithBottomVSplit {
                                top: vp.0[0],
                                bottom_left: vp.0[1],
                                bottom_right: vp.0[2],
                            },
                            vp.1,
                        ),
                    ),
                    None => None,
                }
            } else if tag == 7 {
                match spec_dec_ids(tp.1, 4) {
                    Some(vp) => Some(
                        (
                            MemoriLayout::Fourths {
                                top_left: vp.0[0],
                                top_right: vp.0[1],
                                bottom_left: vp.0[2],
                                bottom_right: vp.0[3],
                            },
                            vp.1,
                        ),
                    ),
                    None => None,
                }
            } else {
                None
            }
        },
        None => None,
    }
}

proof fn lemma_dec_one_id(a: WidgetId, rest: Seq<u8>)
    ensures
        spec_dec_ids(spec_enc_widget_id(a) + rest, 1) == Some((seq![a], rest)),
{
    lemma_widget_id_round_trip(a, rest);
    assert(spec_dec_ids(rest, 0) == Some((Seq::<WidgetId>::empty(), rest)));
    assert(seq![a] + Seq::<WidgetId>::empty() =~= seq![a]);
}

proof fn lemma_dec_two_ids(a: WidgetId, b: WidgetId, rest: Seq<u8>)
    ensures
        spec_dec_ids(spec_enc_widget_id(a) + (spec_enc_widget_id(b) + rest), 2) == Some(
            (seq![a, b], rest),
        ),
{
    lemma_widget_id_round_trip(a, spec_enc_widget_id(b) + rest);
    lemma_dec_one_id(b, rest);
    assert(seq![a] + seq![b] =~= seq![a, b]);
}

proof fn lemma_dec_three_ids(a: WidgetId, b: WidgetId, c: WidgetId, rest: Seq<u8>)
    ensures
        spec_dec_ids(
            spec_enc_widget_id(a) + (spec_enc_widget_id(b) + (spec_enc_widget_id(c) + rest)),
            3,
        ) == Some((seq![a, b, c], rest)),
{
    lemma_widget_id_round_trip(a, spec_enc_widget_id(b) + (spec_enc_widget_id(c) + rest));
    lemma_dec_two_ids(b, c, rest);
    assert(seq![a] + seq![b, c] =~= seq![a, b, c]);
}

proof fn lemma_dec_four_ids(a: WidgetId, b: WidgetId, c: WidgetId, d: WidgetId, rest: Seq<u8>)
    ensures
        spec_dec_ids(
            spec_enc_widget_id(a) + (spec_enc_widget_id(b) + (spec_enc_widget_id(c) + (
            spec_enc_widget_id(d) + rest))),
            4,
        ) == Some((seq![a, b, c, d], rest)),
{
    lemma_widget_id_round_trip(
        a,
        spec_enc_widget_id(b) + (spec_enc_widget_id(c) + (spec_enc_widget_id(d) + rest)),
    );
    lemma_dec_three_ids(b, c, d, rest);
    assert(seq![a] + seq![b, c, d] =~= seq![a, b, c, d]);
}

#[verifier::rlimit(60)]
pub proof fn lemma_layout_round_trip(v: MemoriLayout, rest: Seq<u8>)
    ensures
        spec_dec_layout(spec_enc_layout(v) + rest) == Some((v, rest)),
{
    match v {
        MemoriLayout::Full(a) => {
            assert(spec_enc_layout(v) + rest =~= spec_enc_u8(0) + (spec_enc_widget_id(a) + rest));
            lemma_u8_round_trip(0, spec_enc_widget_id(a) + rest);
            lemma_dec_one_id(a, rest);
        },
        MemoriLayout::VSplit { left, right } => {
            let tail = spec_enc_widget_id(left) + (spec_enc_widget_id(right) + rest);
            assert(spec_enc_layout(v) + rest =~= spec_enc_u8(1) + tail);
            lemma_u8_round_trip(1, tail);
            lemma_dec_two_ids(left, right, rest);
        },
        MemoriLayout::HSplit { top, bottom } => {
            let tail = spec_enc_widget_id(top) + (spec_enc_widget_id(bottom) + rest);
            assert(spec_enc_layout(v) + rest =~= spec_enc_u8(2) + tail);
            lemma_u8_round_trip(2, tail);
            lemma_dec_two_ids(top, bottom, rest);
        },
        MemoriLayout::VSplitWithRightHSplit { left, right_top, right_bottom } => {
            let tail = spec_enc_widget_id(left) + (spec_enc_widget_id(right_top) + (
            spec_enc_widget_id(right_bottom) + rest));
            assert(spec_enc_layout(v) + rest =~= spec_enc_u8(3) + tail);
            lemma_u8_round_trip(3, tail);
            lemma_dec_three_ids(left, right_top, right_bottom, rest);
        },
        MemoriLayout::HSplitWithTopVSplit { bottom, top_right, top_left } => {
            let tail = spec_enc_widget_id(bottom) + (spec_enc_widget_id(top_right) + (
            spec_enc_widget_id(top_left) + rest));
            assert(spec_enc_layout(v) + rest =~= spec_enc_u8(4) + tail);
            lemma_u8_round_trip(4, tail);
            lemma_dec_three_ids(bottom, top_right, top_left, rest);
        },
        MemoriLayout::VSplitWithLeftHSplit { left_top, left_bottom, right } => {
            let tail = spec_enc_widget_id(left_top) + (spec_enc_widget_id(left_bottom) + (
            spec_enc_widget_id(right) + rest));
            assert(spec_enc_layout(v) + rest =~= spec_enc_u8(5) + tail);
            lemma_u8_round_trip(5, tail);
            lemma_dec_three_ids(left_top, left_bottom, right, rest);
        },
        MemoriLayout::HSplitWithBottomVSplit { top, bottom_left, bottom_right } => {
            let tail = spec_enc_widget_id(top) + (spec_enc_widget_id(bottom_left) + (
            spec_enc_widget_id(bottom_right) + rest));
            assert(spec_enc_layout(v) + rest =~= spec_enc_u8(6) + tail);
            lemma_u8_round_trip(6, tail);
            lemma_dec_three_ids(top, bottom_left, bottom_right, rest);
        },
        MemoriLayout::Fourths { top_left, top_right, bottom_left, bottom_right } => {
            let tail = spec_enc_widget_id(top_left) + (spec_enc_widget_id(top_right) + (
            spec_enc_widget_id(bottom_left) + (spec_enc_widget_id(bottom_right) + rest)));
            assert(spec_enc_layout(v) + rest =~= spec_enc_u8(7) + tail);
            lemma_u8_round_trip(7, tail);
            lemma_dec_four_ids(top_left, top_right, bottom_left, bottom_right, rest);
        },
    }
}

pub fn enc_layout(out: &mut Vec<u8>, v: &MemoriLayout)
    ensures
        final(out)@ == old(out)@ + spec_enc_layout(*v),
{
    match v {
        MemoriLayout::Full(a) => {
            enc_u8(out, 0);
            enc_widget_id(out, *a);
        },
        MemoriLayout::VSplit { left, right } => {
            enc_u8(out, 1);
            enc_widget_id(out, *left);
            enc_widget_id(out, *right);
        },
        MemoriLayout::HSplit { top, bottom } => {
            enc_u8(out, 2);
            enc_widget_id(out, *top);
            enc_widget_id(out, *bottom);
        },
        MemoriLayout::VSplitWithRightHSplit { left, right_top, right_bottom } => {
            enc_u8(out, 3);
            enc_widget_id(out, *left);
            enc_widget_id(out, *right_top);
            enc_widget_id(out, *right_bottom);
        },
        MemoriLayout::HSplitWithTopVSplit { bottom, top_right, top_left } => {
            enc_u8(out, 4);
            enc_widget_id(out, *bottom);
            enc_widget_id(out, *top_right);
            enc_widget_id(out, *top_left);
        },
        MemoriLayout::VSplitWithLeftHSplit { left_top, left_bottom, right } => {
            enc_u8(out, 5);
            enc_widget_id(out, *left_top);
            enc_widget_id(out, *left_bottom);
            enc_widget_id(out, *right);
        },
        MemoriLayout::HSplitWithBottomVSplit { top, bottom_left, bottom_right } => {
            enc_u8(out, 6);
            enc_widget_id(out, *top);
            enc_widget_id(out, *bottom_left);
            enc_widget_id(out, *bottom_right);
        },
        MemoriLayout::Fourths { top_left, top_right, bottom_left, bottom_right } => {
            enc_u8(out, 7);
            enc_widget_id(out, *top_left);
            enc_widget_id(out, *top_right);
            enc_widget_id(out, *bottom_left);
            enc_widget_id(out, *bottom_right);
        },
    }
    assert(out@ =~= old(out)@ + spec_enc_layout(*v));
}

/// Decode `k` widget identifiers in a row.
fn dec_ids(s: &[u8], pos: usize, k: u8) -> (r: Option<(Vec<WidgetId>, usize)>)
    requires
        pos <= s.len(),
    ensures
        decodes_to::<Vec<WidgetId>>(s@, pos as int, spec_dec_ids(s@.skip(pos as int), k as nat), r),
        r matches Some(t) ==> t.0.len() == k,
    decreases k,
{
    if k == 0 {
        Some((Vec::new(), pos))
    } else {
        match dec_widget_id(s, pos) {
            Some((a, p)) => match dec_ids(s, p, k - 1) {
                Some((mut ids, q)) => {
                    ids.insert(0, a);
                    proof {
                        let sd = spec_dec_ids(s@.skip(pos as int), k as nat);
                        assert(ids@ =~= sd->Some_0.0);
                    }
                    Some((ids, q))
                },
                None => None,
            },
            None => None,
        }
    }
}

#[verifier::rlimit(60)]
pub fn dec_layout(s: &[u8], pos: usize) -> (r: Option<(MemoriLayout, usize)>)
    requires
        pos <= s.len(),
    ensures
        decodes_to::<MemoriLayout>(s@, pos as int, spec_dec_layout(s@.skip(pos as int)), r),
{
    match dec_u8(s, pos) {
        Some((tag, p)) => {
            if tag == 0 {
                match dec_ids(s, p, 1) {
                    Some((ids, q)) => Some((MemoriLayout::Full(ids[0]), q)),
                    None => None,
                }
            } else if tag == 1 {
                match dec_ids(s, p, 2) {
                    Some((ids, q)) => Some(
                        (MemoriLayout::VSplit { left: ids[0], right: ids[1] }, q),
                    ),
                    None => None,
                }
            } else if tag == 2 {
                match dec_ids(s, p, 2) {
                    Some((ids, q)) => Some(
                        (MemoriLayout::HSplit { top: ids[0], bottom: ids[1] }, q),
                    ),
                    None => None,
                }
            } else if tag == 3 {
                match dec_ids(s, p, 3) {
                    Some((ids, q)) => Some(
                        (
                            MemoriLayout::VSplitWithRightHSplit {
                                left: ids[0],
                                right_top: ids[1],
                                right_bottom: ids[2],
                            },
                            q,
                        ),
                    ),
                    None => None,
                }
            } else if tag == 4 {
                match dec_ids(s, p, 3) {
                    Some((ids, q)) => Some(
                        (
                            MemoriLayout::HSplitWithTopVSplit {
                                bottom: ids[0],
                                top_right: ids[1],
                                top_left: ids[2],
                            },
                            q,
                        ),
                    ),
                    None => None,
                }
            } else if tag == 5 {
                match dec_ids(s, p, 3) {
                    Some((ids, q)) => Some(
                        (
                            MemoriLayout::VSplitWithLeftHSplit {
                                left_top: ids[0],
                                left_bottom: ids[1],
                                right: ids[2],
                            },
                            q,
                        ),
                    ),
                    None => None,
                }
            } else if tag == 6 {
                match dec_ids(s, p, 3) {
                    Some((ids, q)) => Some(
                        (
                            MemoriLayout::HSplitWithBottomVSplit {
                                top: ids[0],
                                bottom_left: ids[1],
                                bottom_right: ids[2],
                            },
                            q,
                        ),
                    ),
                    None => None,
                }
            } else if tag == 7 {
                match dec_ids(s, p, 4) {
                    Some((ids, q)) => Some(
                        (
                            MemoriLayout::Fourths {
                                top_left: ids[0],
                                top_right: ids[1],
                                bottom_left: ids[2],
                                bottom_right: ids[3],
                            },
                            q,
                        ),
                    ),
                    None => None,
                }
            } else {
                None
            }
        },
        None => None,
    }
}

// ---------------------------------------------------------------------------
// Widget and frame lists: a count varint, then the elements
// ---------------------------------------------------------------------------

/// The views of a run of widgets, element by element.
pub open spec fn views_of_widgets(s: Seq<MemoriWidget>) -> Seq<MemoriWidgetV> {
    Seq::new(s.len(), |i: int| s[i]@)
}

pub open spec fn spec_enc_widget_run(s: Seq<MemoriWidget>) -> Seq<u8>
    decreases s.len(),
{
    if s.len() == 0 {
        Seq::empty()
    } else {
        spec_enc_widget(s[0]) + spec_enc_widget_run(s.drop_first())
    }
}

pub open spec fn spec_dec_widget_run(s: Seq<u8>, n: nat) -> Option<(Seq<MemoriWidgetV>, Seq<u8>)>
    decreases n,
{
    if n == 0 {
        Some((Seq::empty(), s))
    } else {
        match spec_dec_widget(s) {
            Some(vp) => match spec_dec_widget_run(vp.1, (n - 1) as nat) {
                Some(rp) => Some((seq![vp.0] + rp.0, rp.1)),
                None => None,
            },
            None => None,
        }
    }
}

/// The whole widget list: count, then that many widgets. A count that
/// exceeds the bytes that follow is rejected outright (each widget takes
/// at least one byte).
pub open spec fn spec_enc_widgets(s: Seq<MemoriWidget>) -> Seq<u8> {
    spec_enc_varint(s.len()) + spec_enc_widget_run(s)
}

pub open spec fn spec_dec_widgets(s: Seq<u8>) -> Option<(Seq<MemoriWidgetV>, Seq<u8>)> {
    match spec_dec_varint(s) {
        Some(np) => if np.0 <= np.1.len() {
            spec_dec_widget_run(np.1, np.0)
        } else {
            None
        },
        None => None,
    }
}

/// Every widget encoding takes at least one byte, so a run of `n` widgets
/// takes at least `n`.
proof fn lemma_enc_widget_run_len(s: Seq<MemoriWidget>)
    ensures
        spec_enc_widget_run(s).len() >= s.len(),
    decreases s.len(),
{
    if s.len() > 0 {
        crate::wire::lemma_enc_varint_len(s[0].id.0 as nat);
        lemma_enc_widget_run_len(s.drop_first());
    }
}

#[verifier::rlimit(100)]
proof fn lemma_widget_run_round_trip(s: Seq<MemoriWidget>, rest: Seq<u8>)
    ensures
        spec_dec_widget_run(spec_enc_widget_run(s) + rest, s.len()) == Some(
            (views_of_widgets(s), rest),
        ),
    decreases s.len(),
{
    if s.len() == 0 {
        assert(spec_enc_widget_run(s) + rest =~= rest);
        assert(views_of_widgets(s) =~= Seq::<MemoriWidgetV>::empty());
    } else {
        let tail = s.drop_first();
        assert(spec_enc_widget_run(s) + rest =~= spec_enc_widget(s[0]) + (spec_enc_widget_run(tail)
            + rest));
        lemma_widget_round_trip(s[0], spec_enc_widget_run(tail) + rest);
        lemma_widget_run_round_trip(tail, rest);
        assert(seq![s[0]@] + views_of_widgets(tail) =~= views_of_widgets(s));
    }
}

pub proof fn lemma_widgets_round_trip(s: Seq<MemoriWidget>, rest: Seq<u8>)
    ensures
        spec_dec_widgets(spec_enc_widgets(s) + rest) == Some((views_of_widgets(s), rest)),
{
    assert(spec_enc_widgets(s) + rest =~= spec_enc_varint(s.len()) + (spec_enc_widget_run(s)
        + rest));
    lemma_varint_round_trip(s.len(), spec_enc_widget_run(s) + rest);
    lemma_enc_widget_run_len(s);
    lemma_widget_run_round_trip(s, rest);
}

pub fn enc_widgets(out: &mut Vec<u8>, v: &Vec<MemoriWidget>)
    ensures
        final(out)@ == old(out)@ + spec_enc_widgets(v@),
{
    enc_varint(out, v.len() as u64);
    let ghost base = out@;
    let mut i: usize = 0;
    while i < v.len()
        invariant
            i <= v.len(),
            out@ == base + spec_enc_widget_run(v@.take(i as int)),
        decreases v.len() - i,
    {
        enc_widget(out, &v[i]);
        proof {
            lemma_enc_widget_run_snoc(v@.take(i + 1));
            assert(v@.take(i + 1).drop_last() =~= v@.take(i as int));
            assert(v@.take(i + 1).last() == v@[i as int]);
        }
        i = i + 1;
    }
    proof {
        assert(v@.take(v@.len() as int) =~= v@);
        assert(out@ =~= old(out)@ + spec_enc_widgets(v@));
    }
}

/// Appending one widget to a run appends its encoding.
proof fn lemma_enc_widget_run_snoc(s: Seq<MemoriWidget>)
    requires
        s.len() > 0,
    ensures
        spec_enc_widget_run(s) == spec_enc_widget_run(s.drop_last()) + spec_enc_widget(s.last()),
    decreases s.len(),
{
    if s.len() == 1 {
        assert(s.drop_first() =~= Seq::<MemoriWidget>::empty());
        assert(s.drop_last() =~= Seq::<MemoriWidget>::empty());
        assert(spec_enc_widget_run(s) =~= spec_enc_widget_run(s.drop_last()) + spec_enc_widget(
            s.last(),
        ));
    } else {
        let tail = s.drop_first();
        lemma_enc_widget_run_snoc(tail);
        assert(tail.drop_last() =~= s.drop_last().drop_first());
        assert(tail.last() == s.last());
        assert(s.drop_last()[0] == s[0]);
        assert(spec_enc_widget_run(s.drop_last()) == spec_enc_widget(s[0]) + spec_enc_widget_run(
            s.drop_last().drop_first(),
        ));
        assert(spec_enc_widget_run(s) =~= spec_enc_widget_run(s.drop_last()) + spec_enc_widget(
            s.last(),
        ));
    }
}

/// Prefix a decoded run with already-decoded views.
pub open spec fn prepend_widgets(
    acc: Seq<MemoriWidgetV>,
    r: Option<(Seq<MemoriWidgetV>, Seq<u8>)>,
) -> Option<(Seq<MemoriWidgetV>, Seq<u8>)> {
    match r {
        Some(vp) => Some((acc + vp.0, vp.1)),
        None => None,
    }
}

pub fn dec_widgets(s: &[u8], pos: usize) -> (r: Option<(Vec<MemoriWidget>, usize)>)
    requires
        pos <= s.len(),
    ensures
        match spec_dec_widgets(s@.skip(pos as int)) {
            Some(vp) => match r {
                Some(t) => views_of_widgets(t.0@) == vp.0 && pos <= t.1 <= s.len() && s@.skip(
                    t.1 as int,
                ) == vp.1,
                None => false,
            },
            None => r is None,
        },
{
    proof {
        crate::wire::lemma_dec_varint_remainder(s@.skip(pos as int));
    }
    let slen: usize = s.len();
    match dec_varint(s, pos) {
        Some((n, p0)) => {
            if n > (slen - p0) as u64 {
                return None;
            }
            let mut acc: Vec<MemoriWidget> = Vec::new();
            let mut i: u64 = 0;
            let mut p: usize = p0;
            proof {
                let rr = spec_dec_widget_run(s@.skip(p0 as int), n as nat);
                assert(views_of_widgets(acc@) =~= Seq::<MemoriWidgetV>::empty());
                match rr {
                    Some(ip) => {
                        assert(Seq::<MemoriWidgetV>::empty() + ip.0 =~= ip.0);
                    },
                    None => {},
                }
            }
            while i < n
                invariant
                    i <= n,
                    pos <= p <= s@.len(),
                    acc@.len() == i,
                    spec_dec_widgets(s@.skip(pos as int)) == prepend_widgets(
                        views_of_widgets(acc@),
                        spec_dec_widget_run(s@.skip(p as int), (n - i) as nat),
                    ),
                decreases n - i,
            {
                match dec_widget(s, p) {
                    Some((w, q)) => {
                        proof {
                            let cur = s@.skip(p as int);
                            let inner = spec_dec_widget_run(
                                s@.skip(q as int),
                                (n - i - 1) as nat,
                            );
                            assert(spec_dec_widget(cur) matches Some(vp) && vp.0 == w@ && vp.1
                                == s@.skip(q as int));
                            match inner {
                                Some(ip) => {
                                    assert(views_of_widgets(acc@.push(w)) =~= views_of_widgets(acc@)
                                        .push(w@));
                                    assert(views_of_widgets(acc@) + (seq![w@] + ip.0)
                                        =~= views_of_widgets(acc@.push(w)) + ip.0);
                                },
                                None => {},
                            }
                        }
                        acc.push(w);
                        p = q;
                        i = i + 1;
                    },
                    None => {
                        return None;
                    },
                }
            }
            proof {
                assert(spec_dec_widget_run(s@.skip(p as int), 0) == Some(
                    (Seq::<MemoriWidgetV>::empty(), s@.skip(p as int)),
                ));
                assert(views_of_widgets(acc@) + Seq::<MemoriWidgetV>::empty() =~= views_of_widgets(
                    acc@,
                ));
            }
            Some((acc, p))
        },
        None => None,
    }
}

// The frame list uses the same shape; layouts are plain values, so the
// decoder returns them directly.

pub open spec fn spec_enc_frame_run(s: Seq<MemoriLayout>) -> Seq<u8>
    decreases s.len(),
{
    if s.len() == 0 {
        Seq::empty()
    } else {
        spec_enc_layout(s[0]) + spec_enc_frame_run(s.drop_first())
    }
}

pub open spec fn spec_dec_frame_run(s: Seq<u8>, n: nat) -> Option<(Seq<MemoriLayout>, Seq<u8>)>
    decreases n,
{
    if n == 0 {
        Some((Seq::empty(), s))
    } else {
        match spec_dec_layout(s) {
            Some(vp) => match spec_dec_frame_run(vp.1, (n - 1) as nat) {
                Some(rp) => Some((seq![vp.0] + rp.0, rp.1)),
                None => None,
            },
            None => None,
        }
    }
}

pub open spec fn spec_enc_frames(s: Seq<MemoriLayout>) -> Seq<u8> {
    spec_enc_varint(s.len()) + spec_enc_frame_run(s)
}

pub open spec fn spec_dec_frames(s: Seq<u8>) -> Option<(Seq<MemoriLayout>, Seq<u8>)> {
    match spec_dec_varint(s) {
        Some(np) => if np.0 <= np.1.len() {
            spec_dec_frame_run(np.1, np.0)
        } else {
            None
        },
        None => None,
    }
}

proof fn lemma_enc_frame_run_len(s: Seq<MemoriLayout>)
    ensures
        spec_enc_frame_run(s).len() >= s.len(),
    decreases s.len(),
{
    if s.len() > 0 {
        lemma_enc_frame_run_len(s.drop_first());
    }
}

proof fn lemma_frame_run_round_trip(s: Seq<MemoriLayout>, rest: Seq<u8>)
    ensures
        spec_dec_frame_run(spec_enc_frame_run(s) + rest, s.len()) == Some((s, rest)),
    decreases s.len(),
{
    if s.len() == 0 {
        assert(spec_enc_frame_run(s) + rest =~= rest);
    } else {
        let tail = s.drop_first();
        assert(spec_enc_frame_run(s) + rest =~= spec_enc_layout(s[0]) + (spec_enc_frame_run(tail)
            + rest));
        lemma_layout_round_trip(s[0], spec_enc_frame_run(tail) + rest);
        lemma_frame_run_round_trip(tail, rest);
        assert(seq![s[0]] + tail =~= s);
    }
}

pub proof fn lemma_frames_round_trip(s: Seq<MemoriLayout>, rest: Seq<u8>)
    ensures
        spec_dec_frames(spec_enc_frames(s) + rest) == Some((s, rest)),
{
    assert(spec_enc_frames(s) + rest =~= spec_enc_varint(s.len()) + (spec_enc_frame_run(s)
        + rest));
    lemma_varint_round_trip(s.len(), spec_enc_frame_run(s) + rest);
    lemma_enc_frame_run_len(s);
    lemma_frame_run_round_trip(s, rest);
}

proof fn lemma_enc_frame_run_snoc(s: Seq<MemoriLayout>)
    requires
        s.len() > 0,
    ensures
        spec_enc_frame_run(s) == spec_enc_frame_run(s.drop_last()) + spec_enc_layout(s.last()),
    decreases s.len(),
{
    if s.len() == 1 {
        assert(s.drop_first() =~= Seq::<MemoriLayout>::empty());
        assert(s.drop_last() =~= Seq::<MemoriLayout>::empty());
        assert(spec_enc_frame_run(s) =~= spec_enc_frame_run(s.drop_last()) + spec_enc_layout(
            s.last(),
        ));
    } else {
        let tail = s.drop_first();
        lemma_enc_frame_run_snoc(tail);
        assert(tail.drop_last() =~= s.drop_last().drop_first());
        assert(tail.last() == s.last());
        assert(s.drop_last()[0] == s[0]);
        assert(spec_enc_frame_run(s.drop_last()) == spec_enc_layout(s[0]) + spec_enc_frame_run(
            s.drop_last().drop_first(),
        ));
        assert(spec_enc_frame_run(s) =~= spec_enc_frame_run(s.drop_last()) + spec_enc_layout(
            s.last(),
        ));
    }
}

pub fn enc_frames(out: &mut Vec<u8>, v: &Vec<MemoriLayout>)
    ensures
        final(out)@ == old(out)@ + spec_enc_frames(v@),
{
    enc_varint(out, v.len() as u64);
    let ghost base = out@;
    let mut i: usize = 0;
    while i < v.len()
        invariant
            i <= v.len(),
            out@ == base + spec_enc_frame_run(v@.take(i as int)),
        decreases v.len() - i,
    {
        enc_layout(out, &v[i]);
        proof {
            lemma_enc_frame_run_snoc(v@.take(i + 1));
            assert(v@.take(i + 1).drop_last() =~= v@.take(i as int));
            assert(v@.take(i + 1).last() == v@[i as int]);
        }
        i = i + 1;
    }
    proof {
        assert(v@.take(v@.len() as int) =~= v@);
        assert(out@ =~= old(out)@ + spec_enc_frames(v@));
    }
}

pub open spec fn prepend_frames(
    acc: Seq<MemoriLayout>,
    r: Option<(Seq<MemoriLayout>, Seq<u8>)>,
) -> Option<(Seq<MemoriLayout>, Seq<u8>)> {
    match r {
        Some(vp) => Some((acc + vp.0, vp.1)),
        None => None,
    }
}

pub fn dec_frames(s: &[u8], pos: usize) -> (r: Option<(Vec<MemoriLayout>, usize)>)
    requires
        pos <= s.len(),
    ensures
        decodes_to::<Vec<MemoriLayout>>(s@, pos as int, spec_dec_frames(s@.skip(pos as int)), r),
{
    proof {
        crate::wire::lemma_dec_varint_remainder(s@.skip(pos as int));
    }
    let slen: usize = s.len();
    match dec_varint(s, pos) {
        Some((n, p0)) => {
            if n > (slen - p0) as u64 {
                return None;
            }
            let mut acc: Vec<MemoriLayout> = Vec::new();
            let mut i: u64 = 0;
            let mut p: usize = p0;
            proof {
                let rr = spec_dec_frame_run(s@.skip(p0 as int), n as nat);
                match rr {
                    Some(ip) => {
                        assert(Seq::<MemoriLayout>::empty() + ip.0 =~= ip.0);
                    },
                    None => {},
                }
            }
            while i < n
                invariant
                    i <= n,
                    pos <= p <= s@.len(),
                    acc@.len() == i,
                    spec_dec_frames(s@.skip(pos as int)) == prepend_frames(
                        acc@,
                        spec_dec_frame_run(s@.skip(p as int), (n - i) as nat),
                    ),
                decreases n - i,
            {
                match dec_layout(s, p) {
                    Some((w, q)) => {
                        proof {
                            let inner = spec_dec_frame_run(s@.skip(q as int), (n - i - 1) as nat);
                            match inner {
                                Some(ip) => {
                                    assert(acc@ + (seq![w] + ip.0) =~= acc@.push(w) + ip.0);
                                },
                                None => {},
                            }
                        }
                        acc.push(w);
                        p = q;
                        i = i + 1;
                    },
                    None => {
                        return None;
                    },
                }
            }
            proof {
                assert(spec_dec_frame_run(s@.skip(p as int), 0) == Some(
                    (Seq::<MemoriLayout>::empty(), s@.skip(p as int)),
                ));
                assert(acc@ + Seq::<MemoriLayout>::empty() =~= acc@);
            }
            Some((acc, p))
        },
        None => None,
    }
}

// ---------------------------------------------------------------------------
// The whole device state
// ---------------------------------------------------------------------------

pub open spec fn spec_enc_state(v: MemoriState) -> Seq<u8> {
    spec_enc_usize(v.active_frame_idx) + spec_enc_widgets(v.widgets@) + spec_enc_frames(v.frames@)
        + spec_enc_u32(v.frame_time)
}

pub open spec fn spec_dec_state(s: Seq<u8>) -> Option<(MemoriStateV, Seq<u8>)> {
    match spec_dec_usize(s) {
        Some(ap) => match spec_dec_widgets(ap.1) {
            Some(wp) => match spec_dec_frames(wp.1) {
                Some(fp) => match spec_dec_u32(fp.1) {
                    Some(tp) => Some(
                        (
                            MemoriStateV {
                                active_frame_idx: ap.0,
                                widgets: wp.0,
                                frames: fp.0,
                                frame_time: tp.0,
                            },
                            tp.1,
                        ),
                    ),
                    None => None,
                },
                None => None,
            },
            None => None,
        },
        None => None,
    }
}

#[verifier::rlimit(100)]
pub proof fn lemma_state_round_trip(v: MemoriState, rest: Seq<u8>)
    ensures
        spec_dec_state(spec_enc_state(v) + rest) == Some((v@, rest)),
{
    let e0 = spec_enc_usize(v.active_frame_idx);
    let e1 = spec_enc_widgets(v.widgets@);
    let e2 = spec_enc_frames(v.frames@);
    let e3 = spec_enc_u32(v.frame_time);
    assert(spec_enc_state(v) + rest =~= e0 + (e1 + (e2 + (e3 + rest))));
    lemma_usize_round_trip(v.active_frame_idx, e1 + (e2 + (e3 + rest)));
    lemma_widgets_round_trip(v.widgets@, e2 + (e3 + rest));
    lemma_frames_round_trip(v.frames@, e3 + rest);
    lemma_u32_round_trip(v.frame_time, rest);
    assert(views_of_widgets(v.widgets@) =~= v@.widgets);
}

pub fn enc_state(out: &mut Vec<u8>, v: &MemoriState)
    ensures
        final(out)@ == old(out)@ + spec_enc_state(*v),
{
    enc_usize(out, v.active_frame_idx);
    enc_widgets(out, &v.widgets);
    enc_frames(out, &v.frames);
    enc_u32(out, v.frame_time);
    assert(out@ =~= old(out)@ + spec_enc_state(*v));
}

pub fn dec_state(s: &[u8], pos: usize) -> (r: Option<(MemoriState, usize)>)
    requires
        pos <= s.len(),
    ensures
        match spec_dec_state(s@.skip(pos as int)) {
            Some(vp) => match r {
                Some(t) => t.0@ == vp.0 && pos <= t.1 <= s.len() && s@.skip(t.1 as int) == vp.1,
                None => false,
            },
            None => r is None,
        },
{
    match dec_usize(s, pos) {
        Some((active_frame_idx, p0)) => match dec_widgets(s, p0) {
            Some((widgets, p1)) => match dec_frames(s, p1) {
                Some((frames, p2)) => match dec_u32(s, p2) {
                    Some((frame_time, p3)) => {
                        let st = MemoriState { active_frame_idx, widgets, frames, frame_time };
                        proof {
                            let sd = spec_dec_state(s@.skip(pos as int));
                            assert(st@.widgets =~= views_of_widgets(st.widgets@));
                            assert(st@ == sd->Some_0.0);
                        }
                        Some((st, p3))
                    },
                    None => None,
                },
                None => None,
            },
            None => None,
        },
        None => None,
    }
}

// ---------------------------------------------------------------------------
// Errors, configuration, and result payloads
// ---------------------------------------------------------------------------

pub open spec fn spec_enc_trans_error(e: TransError) -> Seq<u8> {
    match e {
        TransError::NotConnected => spec_enc_u8(0),
        TransError::Timeout => spec_enc_u8(1),
        TransError::InvalidMessage => spec_enc_u8(2),
        TransError::ProtocolIssue => spec_enc_u8(3),
        TransError::WidgetNotFound => spec_enc_u8(4),
        TransError::InternalError => spec_enc_u8(5),
    }
}

pub open spec fn spec_dec_trans_error(s: Seq<u8>) -> Option<(TransError, Seq<u8>)> {
    match spec_dec_u8(s) {
        Some(tp) => {
            if tp.0 == 0 {
                Some((TransError::NotConnected, tp.1))
            } else if tp.0 == 1 {
                Some((TransError::Timeout, tp.1))
            } else if tp.0 == 2 {
                Some((TransError::InvalidMessage, tp.1))
            } else if tp.0 == 3 {
                Some((TransError::ProtocolIssue, tp.1))
            } else if tp.0 == 4 {
                Some((TransError::WidgetNotFound, tp.1))
            } else if tp.0 == 5 {
                Some((TransError::InternalError, tp.1))
            } else {
                None
            }
        },
        None => None,
    }
}

pub proof fn lemma_trans_error_round_trip(e: TransError, rest: Seq<u8>)
    ensures
        spec_dec_trans_error(spec_enc_trans_error(e) + rest) == Some((e, rest)),
{
    match e {
        TransError::NotConnected => lemma_u8_round_trip(0, rest),
        TransError::Timeout => lemma_u8_round_trip(1, rest),
        TransError::InvalidMessage => lemma_u8_round_trip(2, rest),
        TransError::ProtocolIssue => lemma_u8_round_trip(3, rest),
        TransError::WidgetNotFound => lemma_u8_round_trip(4, rest),
        TransError::InternalError => lemma_u8_round_trip(5, rest),
    }
}

pub fn enc_trans_error(out: &mut Vec<u8>, e: TransError)
    ensures
        final(out)@ == old(out)@ + spec_enc_trans_error(e),
{
    match e {
        TransError::NotConnected => enc_u8(out, 0),
        TransError::Timeout => enc_u8(out, 1),
        TransError::InvalidMessage => enc_u8(out, 2),
        TransError::ProtocolIssue => enc_u8(out, 3),
        TransError::WidgetNotFound => enc_u8(out, 4),
        TransError::InternalError => enc_u8(out, 5),
    }
}

pub fn dec_trans_error(s: &[u8], pos: usize) -> (r: Option<(TransError, usize)>)
    requires
        pos <= s.len(),
    ensures
        decodes_to::<TransError>(s@, pos as int, spec_dec_trans_error(s@.skip(pos as int)), r),
{
    match dec_u8(s, pos) {
        Some((tag, p)) => {
            if tag == 0 {
                Some((TransError::NotConnected, p))
            } else if tag == 1 {
                Some((TransError::Timeout, p))
            } else if tag == 2 {
                Some((TransError::InvalidMessage, p))
            } else if tag == 3 {
                Some((TransError::ProtocolIssue, p))
            } else if tag == 4 {
                Some((TransError::WidgetNotFound, p))
            } else if tag == 5 {
                Some((TransError::InternalError, p))
            } else {
                None
            }
        },
        None => None,
    }
}

pub open spec fn spec_enc_config(c: DeviceConfig) -> Seq<u8> {
    spec_enc_bool(c.dark_mode)
}

pub open spec fn spec_dec_config(s: Seq<u8>) -> Option<(DeviceConfig, Seq<u8>)> {
    match spec_dec_bool(s) {
        Some(vp) => Some((DeviceConfig { dark_mode: vp.0 }, vp.1)),
        None => None,
    }
}

pub proof fn lemma_config_round_trip(c: DeviceConfig, rest: Seq<u8>)
    ensures
        spec_dec_config(spec_enc_config(c) + rest) == Some((c, rest)),
{
    lemma_bool_round_trip(c.dark_mode, rest);
}

pub fn enc_config(out: &mut Vec<u8>, c: DeviceConfig)
    ensures
        final(out)@ == old(out)@ + spec_enc_config(c),
{
    enc_bool(out, c.dark_mode);
}

pub fn dec_config(s: &[u8], pos: usize) -> (r: Option<(DeviceConfig, usize)>)
    requires
        pos <= s.len(),
    ensures
        decodes_to::<DeviceConfig>(s@, pos as int, spec_dec_config(s@.skip(pos as int)), r),
{
    match dec_bool(s, pos) {
        Some((dark_mode, p)) => Some((DeviceConfig { dark_mode }, p)),
        None => None,
    }
}

/// Acknowledgements: `Ok(())` or a protocol error.
pub open spec fn spec_enc_result_unit(r: Result<(), TransError>) -> Seq<u8> {
    match r {
        Ok(_) => spec_enc_u8(0),
        Err(e) => spec_enc_u8(1) + spec_enc_trans_error(e),
    }
}

pub open spec fn spec_dec_result_unit(s: Seq<u8>) -> Option<(Result<(), TransError>, Seq<u8>)> {
    match spec_dec_u8(s) {
        Some(tp) => {
            if tp.0 == 0 {
                Some((Ok(()), tp.1))
            } else if tp.0 == 1 {
                match spec_dec_trans_error(tp.1) {
                    Some(ep) => Some((Err(ep.0), ep.1)),
                    None => None,
                }
            } else {
                None
            }
        },
        None => None,
    }
}

pub proof fn lemma_result_unit_round_trip(r: Result<(), TransError>, rest: Seq<u8>)
    ensures
        spec_dec_result_unit(spec_enc_result_unit(r) + rest) == Some((r, rest)),
{
    match r {
        Ok(x) => {
            lemma_u8_round_trip(0, rest);
            assert(x == ());
            assert(r == Ok::<(), TransError>(x));
            assert(r == Ok::<(), TransError>(()));
        },
        Err(e) => {
            assert(spec_enc_result_unit(r) + rest =~= spec_enc_u8(1) + (spec_enc_trans_error(e)
                + rest));
            lemma_u8_round_trip(1, spec_enc_trans_error(e) + rest);
            lemma_trans_error_round_trip(e, rest);
        },
    }
}

pub fn enc_result_unit(out: &mut Vec<u8>, r: &Result<(), TransError>)
    ensures
        final(out)@ == old(out)@ + spec_enc_result_unit(*r),
{
    match r {
        Ok(_) => enc_u8(out, 0),
        Err(e) => {
            enc_u8(out, 1);
            enc_trans_error(out, *e);
            assert(out@ =~= old(out)@ + spec_enc_result_unit(*r));
        },
    }
}

pub fn dec_result_unit(s: &[u8], pos: usize) -> (r: Option<(Result<(), TransError>, usize)>)
    requires
        pos <= s.len(),
    ensures
        match spec_dec_result_unit(s@.skip(pos as int)) {
            Some(vp) => match r {
                Some(t) => t.0 == vp.0 && pos <= t.1 <= s.len() && s@.skip(t.1 as int) == vp.1,
                None => false,
            },
            None => r is None,
        },
{
    match dec_u8(s, pos) {
        Some((tag, p)) => {
            if tag == 0 {
                Some((Ok(()), p))
            } else if tag == 1 {
                match dec_trans_error(s, p) {
                    Some((e, q)) => Some((Err(e), q)),
                    None => None,
                }
            } else {
                None
            }
        },
        None => None,
    }
}

/// Widget payloads: a refreshed or fetched widget, or a protocol error.
pub open spec fn spec_enc_result_widget(r: Result<MemoriWidget, TransError>) -> Seq<u8> {
    match r {
        Ok(w) => spec_enc_u8(0) + spec_enc_widget(w),
        Err(e) => spec_enc_u8(1) + spec_enc_trans_error(e),
    }
}

pub open spec fn spec_dec_result_widget(s: Seq<u8>) -> Option<
    (Result<MemoriWidgetV, TransError>, Seq<u8>),
> {
    match spec_dec_u8(s) {
        Some(tp) => {
            if tp.0 == 0 {
                match spec_dec_widget(tp.1) {
                    Some(wp) => Some((Ok(wp.0), wp.1)),
                    None => None,
                }
            } else if tp.0 == 1 {
                match spec_dec_trans_error(tp.1) {
                    Some(ep) => Some((Err(ep.0), ep.1)),
                    None => None,
                }
            } else {
                None
            }
        },
        None => None,
    }
}

/// The view of a widget result, widget by widget.
pub open spec fn view_of_result_widget(r: Result<MemoriWidget, TransError>) -> Result<
    MemoriWidgetV,
    TransError,
> {
    match r {
        Ok(w) => Ok(w@),
        Err(e) => Err(e),
    }
}

pub proof fn lemma_result_widget_round_trip(r: Result<MemoriWidget, TransError>, rest: Seq<u8>)
    ensures
        spec_dec_result_widget(spec_enc_result_widget(r) + rest) == Some(
            (view_of_result_widget(r), rest),
        ),
{
    match r {
        Ok(w) => {
            assert(spec_enc_result_widget(r) + rest =~= spec_enc_u8(0) + (spec_enc_widget(w)
                + rest));
            lemma_u8_round_trip(0, spec_enc_widget(w) + rest);
            lemma_widget_round_trip(w, rest);
        },
        Err(e) => {
            assert(spec_enc_result_widget(r) + rest =~= spec_enc_u8(1) + (spec_enc_trans_error(e)
                + rest));
            lemma_u8_round_trip(1, spec_enc_trans_error(e) + rest);
            lemma_trans_error_round_trip(e, rest);
        },
    }
}

pub fn enc_result_widget(out: &mut Vec<u8>, r: &Result<MemoriWidget, TransError>)
    ensures
        final(out)@ == old(out)@ + spec_enc_result_widget(*r),
{
    match r {
        Ok(w) => {
            enc_u8(out, 0);
            enc_widget(out, w);
            assert(out@ =~= old(out)@ + spec_enc_result_widget(*r));
        },
        Err(e) => {
            enc_u8(out, 1);
            enc_trans_error(out, *e);
            assert(out@ =~= old(out)@ + spec_enc_result_widget(*r));
        },
    }
}

pub fn dec_result_widget(s: &[u8], pos: usize) -> (r: Option<
    (Result<MemoriWidget, TransError>, usize),
>)
    requires
        pos <= s.len(),
    ensures
        match spec_dec_result_widget(s@.skip(pos as int)) {
            Some(vp) => match r {
                Some(t) => view_of_result_widget(t.0) == vp.0 && pos <= t.1 <= s.len() && s@.skip(
                    t.1 as int,
                ) == vp.1,
                None => false,
            },
            None => r is None,
        },
{
    match dec_u8(s, pos) {
        Some((tag, p)) => {
            if tag == 0 {
                match dec_widget(s, p) {
                    Some((w, q)) => Some((Ok(w), q)),
                    None => None,
                }
            } else if tag == 1 {
                match dec_trans_error(s, p) {
                    Some((e, q)) => Some((Err(e), q)),
                    None => None,
                }
            } else {
                None
            }
        },
        None => None,
    }
}

} // verus!
