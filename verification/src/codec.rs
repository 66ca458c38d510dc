//! Field codec: conversion between wire-level small integers and the named
//! protocol enumerations, together with each variant's display string.
//!
//! All operations are total: any 8-bit value decodes to some variant (with a
//! defensive fail-safe default for codes the protocol does not define), and
//! every variant encodes to exactly one wire value.

use vstd::prelude::*;

verus! {

/// Two-bit leap-second warning field (bits 7-6 of the packet's first byte).
#[derive(Clone, Copy, Debug, PartialEq, Eq, Structural)]
pub enum LeapIndicator {
    NoWarning,
    LastSixtyOne,
    LastFiftyNine,
    AlarmCondition,
}

/// Protocol version field (bits 5-3 of the packet's first byte). Only
/// version 4 is recognized; every other code collapses to `Unknown`, a
/// sentinel that encodes back to 0 rather than round-tripping.
#[derive(Clone, Copy, Debug, PartialEq, Eq, Structural)]
pub enum Version {
    V4,
    Unknown,
}

/// Three-bit association mode field (bits 2-0 of the packet's first byte).
/// All eight codes have a distinct named variant.
#[derive(Clone, Copy, Debug, PartialEq, Eq, Structural)]
pub enum Mode {
    Reserved,
    SymmetricActive,
    SymmetricPassive,
    Client,
    Server,
    Broadcast,
    ReservedControl,
    ReservedPrivate,
}

/// Wire code to leap indicator: 0-3 map to the four variants; any other
/// value falls back to `AlarmCondition` ("clock not synchronized").
pub open spec fn spec_decode_leap(v: u8) -> LeapIndicator {
    if v == 0 {
        LeapIndicator::NoWarning
    } else if v == 1 {
        LeapIndicator::LastSixtyOne
    } else if v == 2 {
        LeapIndicator::LastFiftyNine
    } else {
        LeapIndicator::AlarmCondition
    }
}

/// Leap indicator to wire code: the exact inverse of the four defined cases.
pub open spec fn spec_encode_leap(li: LeapIndicator) -> u8 {
    match li {
        LeapIndicator::NoWarning => 0,
        LeapIndicator::LastSixtyOne => 1,
        LeapIndicator::LastFiftyNine => 2,
        LeapIndicator::AlarmCondition => 3,
    }
}

/// Wire code to version: only 4 is recognized.
pub open spec fn spec_decode_version(v: u8) -> Version {
    if v == 4 {
        Version::V4
    } else {
        Version::Unknown
    }
}

/// Version to wire code: `Unknown` encodes to 0, deliberately lossy.
pub open spec fn spec_encode_version(v: Version) -> u8 {
    match v {
        Version::V4 => 4,
        Version::Unknown => 0,
    }
}

/// Wire code to mode: 0-7 map one-to-one; values above 7 (unreachable once
/// the caller masks to 3 bits) fall back to `ReservedPrivate`.
pub open spec fn spec_decode_mode(v: u8) -> Mode {
    if v == 0 {
        Mode::Reserved
    } else if v == 1 {
        Mode::SymmetricActive
    } else if v == 2 {
        Mode::SymmetricPassive
    } else if v == 3 {
        Mode::Client
    } else if v == 4 {
        Mode::Server
    } else if v == 5 {
        Mode::Broadcast
    } else if v == 6 {
        Mode::ReservedControl
    } else {
        Mode::ReservedPrivate
    }
}

/// Mode to wire code: the exact inverse of the eight cases.
pub open spec fn spec_encode_mode(m: Mode) -> u8 {
    match m {
        Mode::Reserved => 0,
        Mode::SymmetricActive => 1,
        Mode::SymmetricPassive => 2,
        Mode::Client => 3,
        Mode::Server => 4,
        Mode::Broadcast => 5,
        Mode::ReservedControl => 6,
        Mode::ReservedPrivate => 7,
    }
}

pub fn decode_leap(v: u8) -> (r: LeapIndicator)
    ensures
        r == spec_decode_leap(v),
{
    match v {
        0 => LeapIndicator::NoWarning,
        1 => LeapIndicator::LastSixtyOne,
        2 => LeapIndicator::LastFiftyNine,
        _ => LeapIndicator::AlarmCondition,
    }
}

pub fn encode_leap(li: LeapIndicator) -> (r: u8)
    ensures
        r == spec_encode_leap(li),
{
    match li {
        LeapIndicator::NoWarning => 0,
        LeapIndicator::LastSixtyOne => 1,
        LeapIndicator::LastFiftyNine => 2,
        LeapIndicator::AlarmCondition => 3,
    }
}

pub fn decode_version(v: u8) -> (r: Version)
    ensures
        r == spec_decode_version(v),
{
    match v {
        4 => Version::V4,
        _ => Version::Unknown,
    }
}

pub fn encode_version(v: Version) -> (r: u8)
    ensures
        r == spec_encode_version(v),
{
    match v {
        Version::V4 => 4,
        Version::Unknown => 0,
    }
}

pub fn decode_mode(v: u8) -> (r: Mode)
    ensures
        r == spec_decode_mode(v),
{
    match v {
        0 => Mode::Reserved,
        1 => Mode::SymmetricActive,
        2 => Mode::SymmetricPassive,
        3 => Mode::Client,
        4 => Mode::Server,
        5 => Mode::Broadcast,
        6 => Mode::ReservedControl,
        _ => Mode::ReservedPrivate,
    }
}

pub fn encode_mode(m: Mode) -> (r: u8)
    ensures
        r == spec_encode_mode(m),
{
    match m {
        Mode::Reserved => 0,
        Mode::SymmetricActive => 1,
        Mode::SymmetricPassive => 2,
        Mode::Client => 3,
        Mode::Server => 4,
        Mode::Broadcast => 5,
        Mode::ReservedControl => 6,
        Mode::ReservedPrivate => 7,
    }
}

/// The display string of a leap indicator.
pub open spec fn spec_leap_text(li: LeapIndicator) -> Seq<char> {
    match li {
        LeapIndicator::NoWarning => "No warning"@,
        LeapIndicator::LastSixtyOne => "Last minute has 61 seconds"@,
        LeapIndicator::LastFiftyNine => "Last minute has 59 seconds"@,
        LeapIndicator::AlarmCondition => "Alarm condition (clock not synchronized)"@,
    }
}

/// The display string of a version.
pub open spec fn spec_version_text(v: Version) -> Seq<char> {
    match v {
        Version::V4 => "4"@,
        Version::Unknown => "Unknown"@,
    }
}

/// The display string of a mode.
pub open spec fn spec_mode_text(m: Mode) -> Seq<char> {
    match m {
        Mode::Reserved => "Reserved"@,
        Mode::SymmetricActive => "Symmetric active"@,
        Mode::SymmetricPassive => "Symmetric passive"@,
        Mode::Client => "Client"@,
        Mode::Server => "Server"@,
        Mode::Broadcast => "Broadcast"@,
        Mode::ReservedControl => "Reserved for NTP control message"@,
        Mode::ReservedPrivate => "Reserved for private use"@,
    }
}

pub fn leap_text(li: LeapIndicator) -> (r: &'static str)
    ensures
        r@ == spec_leap_text(li),
{
    match li {
        LeapIndicator::NoWarning => "No warning",
        LeapIndicator::LastSixtyOne => "Last minute has 61 seconds",
        LeapIndicator::LastFiftyNine => "Last minute has 59 seconds",
        LeapIndicator::AlarmCondition => "Alarm condition (clock not synchronized)",
    }
}

pub fn version_text(v: Version) -> (r: &'static str)
    ensures
        r@ == spec_version_text(v),
{
    match v {
        Version::V4 => "4",
        Version::Unknown => "Unknown",
    }
}

pub fn mode_text(m: Mode) -> (r: &'static str)
    ensures
        r@ == spec_mode_text(m),
{
    match m {
        Mode::Reserved => "Reserved",
        Mode::SymmetricActive => "Symmetric active",
        Mode::SymmetricPassive => "Symmetric passive",
        Mode::Client => "Client",
        Mode::Server => "Server",
        Mode::Broadcast => "Broadcast",
        Mode::ReservedControl => "Reserved for NTP control message",
        Mode::ReservedPrivate => "Reserved for private use",
    }
}

/// Decoding a leap code and encoding the result returns the original value
/// for the four defined codes 0-3; every other 8-bit value decodes to
/// `AlarmCondition`, which re-encodes to 3.
pub proof fn lemma_leap_round_trip(v: u8)
    ensures
        v <= 3 ==> spec_encode_leap(spec_decode_leap(v)) == v,
        v > 3 ==> spec_decode_leap(v) == LeapIndicator::AlarmCondition,
        v > 3 ==> spec_encode_leap(spec_decode_leap(v)) == 3,
{
}

/// Every leap indicator variant survives an encode/decode round trip.
pub proof fn lemma_leap_encode_decode(li: LeapIndicator)
    ensures
        spec_decode_leap(spec_encode_leap(li)) == li,
{
}

/// The version codec round-trips exactly at 4 and nowhere else: every code
/// other than 4 decodes to `Unknown`, and `Unknown` encodes to 0.
pub proof fn lemma_version_round_trip(v: u8)
    ensures
        v == 4 ==> spec_decode_version(v) == Version::V4,
        spec_encode_version(Version::V4) == 4,
        v != 4 ==> spec_decode_version(v) == Version::Unknown,
        spec_encode_version(Version::Unknown) == 0,
{
}

/// The mode codec is a bijection on the eight 3-bit codes: decode then
/// encode is the identity on 0-7, and encode then decode is the identity on
/// every variant.
pub proof fn lemma_mode_bijective(v: u8, m: Mode)
    ensures
        v <= 7 ==> spec_encode_mode(spec_decode_mode(v)) == v,
        spec_decode_mode(spec_encode_mode(m)) == m,
{
}

} // verus!
