//! The real-time clock that some cartridges carry.
//!
//! The clock counts seconds of game time. It never reads the time itself:
//! whoever runs the emulation hands it the wall-clock time, in seconds, with
//! `set_time`. Game time runs with the wall clock unless the clock is halted.
//! The day counter has nine bits; game time therefore runs modulo 512 days,
//! and the day-carry flag records that it has wrapped.

use crate::bits::{bit_set, lemma_byte_bits};
use vstd::arithmetic::div_mod::lemma_div_denominator;
use vstd::bytes::{
    lemma_auto_spec_u64_to_from_le_bytes, spec_u64_from_le_bytes, spec_u64_to_le_bytes,
    u64_from_le_bytes, u64_to_le_bytes,
};
use vstd::prelude::*;
use vstd::slice::slice_subrange;

verus! {

/// The seconds register.
pub const RTC_SECONDS: u8 = 0x08;

/// The minutes register.
pub const RTC_MINUTES: u8 = 0x09;

/// The hours register.
pub const RTC_HOURS: u8 = 0x0A;

/// The register with the low eight bits of the day counter.
pub const RTC_DAY_LOW: u8 = 0x0B;

/// The register with bit 8 of the day counter (bit 0), the halt flag (bit 6)
/// and the day-carry flag (bit 7).
pub const RTC_DAY_HIGH: u8 = 0x0C;

/// The seconds in a day.
pub const SECONDS_PER_DAY: u64 = 86_400;

/// The seconds after which the day counter wraps: 512 days.
pub const RTC_PERIOD: u64 = 44_236_800;

/// The version that `save_state` writes.
pub const RTC_STATE_VERSION: u8 = 13;

/// The last version whose records hold nothing but the zero reference.
pub const RTC_LEGACY_VERSION: u8 = 12;

/// The length of a record of the current version.
pub const RTC_RECORD_LEN: usize = 25;

/// The length of a record of a legacy version.
pub const RTC_LEGACY_RECORD_LEN: usize = 9;

/// The state of the clock.
#[derive(Clone, Copy, Debug, PartialEq, Eq, Structural)]
pub struct RTC {
    /// Whether the latch is armed: set by the latch command 0x00, cleared by
    /// every other command. The command 0x01 latches only while it is set.
    pub latch_enabled: bool,
    /// The zero reference: the wall-clock time from which game time runs.
    pub time_zero: u64,
    /// The game time that had elapsed at the zero reference.
    pub offset: u64,
    /// The wall-clock time, as last handed in.
    pub now: u64,
    /// The latched seconds.
    pub sec_latch: u8,
    /// The latched minutes.
    pub min_latch: u8,
    /// The latched hours.
    pub hour_latch: u8,
    /// The latched low eight bits of the day counter.
    pub day_latch_low: u8,
    /// The latched bit 8 of the day counter.
    pub day_latch_high: u8,
    /// Whether the day counter has wrapped.
    pub day_carry: bool,
    /// Whether the clock is halted.
    pub halt: bool,
}

/// The byte that stands for a flag in a record.
pub open spec fn flag_byte(flag: bool) -> u8 {
    if flag {
        1
    } else {
        0
    }
}

/// The last register as the bits of its three fields.
proof fn lemma_day_high_bits(day_high: u8, halt: bool, day_carry: bool)
    by (bit_vector)
    ensures
        (day_high & 0x01) | (if halt {
            0x40u8
        } else {
            0
        }) | (if day_carry {
            0x80u8
        } else {
            0
        }) == day_high % 2 + (if halt {
            0x40u8
        } else {
            0
        }) + (if day_carry {
            0x80u8
        } else {
            0
        }),
{
}

/// The seconds of game time in so many days, hours, minutes and seconds.
pub open spec fn game_time(days: int, hours: int, minutes: int, seconds: int) -> int {
    seconds + 60 * minutes + 3600 * hours + 86_400 * days
}

/// Game time of less than 512 days is made of its days, hours, minutes and
/// seconds, and the days fit in nine bits.
pub proof fn lemma_game_time_parts(t: int)
    requires
        0 <= t < RTC_PERIOD,
    ensures
        game_time(t / 86_400, (t / 3600) % 24, (t / 60) % 60, t % 60) == t,
        0 <= t / 86_400 < 512,
        t / 86_400 == (t / 86_400) % 256 + 256 * ((t / 86_400) / 256),
        0 <= (t / 86_400) / 256 < 2,
{
    let minutes = t / 60;
    let hours = minutes / 60;
    let days = hours / 24;
    lemma_div_denominator(t, 60, 60);
    lemma_div_denominator(minutes, 60, 24);
    lemma_div_denominator(t, 60, 1440);
    assert(hours == t / 3600);
    assert(days == minutes / 1440);
    assert(days == t / 86_400);
    assert(t == 60 * minutes + t % 60);
    assert(minutes == 60 * hours + minutes % 60);
    assert(hours == 24 * days + hours % 24);
}

impl RTC {
    /// The counters are in range, and the elapsed game time at the zero
    /// reference is less than 512 days.
    pub open spec fn wf(self) -> bool {
        &&& self.offset < RTC_PERIOD
        &&& self.sec_latch < 60
        &&& self.min_latch < 60
        &&& self.hour_latch < 24
        &&& self.day_latch_high < 2
    }

    /// A clock that starts to run at the wall-clock time `now`: no game time
    /// has elapsed, the latched counters are zero, the latch is not armed.
    pub open spec fn started(now: u64) -> RTC {
        RTC {
            latch_enabled: false,
            time_zero: now,
            offset: 0,
            now,
            sec_latch: 0,
            min_latch: 0,
            hour_latch: 0,
            day_latch_low: 0,
            day_latch_high: 0,
            day_carry: false,
            halt: false,
        }
    }

    /// The seconds of game time that have elapsed: what had elapsed at the
    /// zero reference and, unless the clock is halted, the wall-clock time
    /// since then.
    pub open spec fn elapsed(self) -> int {
        if self.halt || self.now < self.time_zero {
            self.offset as int
        } else {
            self.offset + (self.now - self.time_zero)
        }
    }

    /// This clock at the wall-clock time `now`.
    pub open spec fn at_time(self, now: u64) -> RTC {
        RTC { now, ..self }
    }

    /// This clock with the present as its zero reference: game time is
    /// reduced modulo 512 days, and the day-carry flag is set if that took
    /// anything off.
    pub open spec fn synced(self) -> RTC {
        RTC {
            time_zero: self.now,
            offset: (self.elapsed() % (RTC_PERIOD as int)) as u64,
            day_carry: self.day_carry || self.elapsed() >= RTC_PERIOD,
            ..self
        }
    }

    /// This clock with the live game time copied into the latched counters.
    pub open spec fn latched(self) -> RTC {
        let synced = self.synced();
        let t = synced.offset as int;
        RTC {
            sec_latch: (t % 60) as u8,
            min_latch: ((t / 60) % 60) as u8,
            hour_latch: ((t / 3600) % 24) as u8,
            day_latch_low: ((t / 86_400) % 256) as u8,
            day_latch_high: ((t / 86_400) / 256) as u8,
            ..synced
        }
    }

    /// The game time that the latched counters stand for, in seconds.
    pub open spec fn latched_seconds(self) -> int {
        game_time(
            self.day_latch_low + 256 * self.day_latch_high,
            self.hour_latch as int,
            self.min_latch as int,
            self.sec_latch as int,
        )
    }

    /// This clock after the latch command `value`: 0x00 arms the latch;
    /// 0x01 latches if the latch is armed, and does nothing if it is not;
    /// every command but 0x00 leaves the latch not armed. So the live game
    /// time is latched by 0x01 straight after 0x00, and by nothing else.
    pub open spec fn write_command_spec(self, value: u8) -> RTC {
        if value == 0x00 {
            RTC { latch_enabled: true, ..self }
        } else if value == 0x01 && self.latch_enabled {
            RTC { latch_enabled: false, ..self.latched() }
        } else {
            RTC { latch_enabled: false, ..self }
        }
    }

    /// What `register` reads as: the latched counter, or 0xFF where there is
    /// no such register.
    pub open spec fn get_register_spec(self, register: u8) -> u8 {
        if register == RTC_SECONDS {
            self.sec_latch
        } else if register == RTC_MINUTES {
            self.min_latch
        } else if register == RTC_HOURS {
            self.hour_latch
        } else if register == RTC_DAY_LOW {
            self.day_latch_low
        } else if register == RTC_DAY_HIGH {
            (self.day_latch_high % 2 + (if self.halt {
                0x40int
            } else {
                0
            }) + (if self.day_carry {
                0x80int
            } else {
                0
            })) as u8
        } else {
            0xFF
        }
    }

    /// This clock after `value` has been written to `register`.
    ///
    /// A write sets one component of the live game time (days, hours,
    /// minutes, seconds) and leaves the others: seconds and minutes are
    /// taken modulo 60, hours modulo 24. A write to the last register sets
    /// bit 8 of the day counter, and the halt and day-carry flags. Game time
    /// goes on from the value written, or stands still at it while the
    /// clock is halted. A write to a register that does not exist changes
    /// nothing.
    pub open spec fn set_register_spec(self, register: u8, value: u8) -> RTC {
        let synced = self.synced();
        let t = synced.offset as int;
        let days = t / 86_400;
        let hours = (t / 3600) % 24;
        let minutes = (t / 60) % 60;
        let seconds = t % 60;
        if register == RTC_SECONDS {
            RTC { offset: game_time(days, hours, minutes, value as int % 60) as u64, ..synced }
        } else if register == RTC_MINUTES {
            RTC { offset: game_time(days, hours, value as int % 60, seconds) as u64, ..synced }
        } else if register == RTC_HOURS {
            RTC { offset: game_time(days, value as int % 24, minutes, seconds) as u64, ..synced }
        } else if register == RTC_DAY_LOW {
            RTC {
                offset: game_time((days / 256) * 256 + value, hours, minutes, seconds) as u64,
                ..synced
            }
        } else if register == RTC_DAY_HIGH {
            RTC {
                offset: game_time(
                    days % 256 + (value as int % 2) * 256,
                    hours,
                    minutes,
                    seconds,
                ) as u64,
                halt: bit_set(value, 0x40),
                day_carry: bit_set(value, 0x80),
                ..synced
            }
        } else {
            self
        }
    }

    /// The record that holds this clock: the version, the zero reference and
    /// the game time at it, each as eight bytes with the lowest first, the
    /// five latched counters, and the halt, day-carry and latch flags.
    pub open spec fn record(self) -> Seq<u8> {
        seq![RTC_STATE_VERSION] + spec_u64_to_le_bytes(self.time_zero) + spec_u64_to_le_bytes(
            self.offset,
        ) + seq![
            self.sec_latch,
            self.min_latch,
            self.hour_latch,
            self.day_latch_low,
            self.day_latch_high,
            flag_byte(self.halt),
            flag_byte(self.day_carry),
            flag_byte(self.latch_enabled),
        ]
    }

    /// The clock that `record` holds, at the wall-clock time `now`.
    ///
    /// A record of a legacy version holds the zero reference alone: every
    /// other field of the clock is zero, and its latch is not armed. A
    /// record of the current version
    /// holds a clock if its counters are in range and its flags are 0 or 1.
    /// Anything else holds no clock.
    pub open spec fn parse_record(record: Seq<u8>, now: u64) -> Option<RTC> {
        if record.len() == 0 {
            None
        } else if record[0] <= RTC_LEGACY_VERSION {
            if record.len() == RTC_LEGACY_RECORD_LEN {
                Some(
                    RTC {
                        time_zero: spec_u64_from_le_bytes(record.subrange(1, 9)),
                        ..RTC::started(now)
                    },
                )
            } else {
                None
            }
        } else if record[0] == RTC_STATE_VERSION && record.len() == RTC_RECORD_LEN {
            let rtc = RTC {
                latch_enabled: record[24] == 1,
                time_zero: spec_u64_from_le_bytes(record.subrange(1, 9)),
                offset: spec_u64_from_le_bytes(record.subrange(9, 17)),
                now,
                sec_latch: record[17],
                min_latch: record[18],
                hour_latch: record[19],
                day_latch_low: record[20],
                day_latch_high: record[21],
                day_carry: record[23] == 1,
                halt: record[22] == 1,
            };
            if rtc.wf() && record[22] <= 1 && record[23] <= 1 && record[24] <= 1 {
                Some(rtc)
            } else {
                None
            }
        } else {
            None
        }
    }

    /// A clock that starts to run at the wall-clock time `now`.
    pub fn new(now: u64) -> (rtc: RTC)
        ensures
            rtc == RTC::started(now),
            rtc.wf(),
    {
        RTC {
            latch_enabled: false,
            time_zero: now,
            offset: 0,
            now,
            sec_latch: 0,
            min_latch: 0,
            hour_latch: 0,
            day_latch_low: 0,
            day_latch_high: 0,
            day_carry: false,
            halt: false,
        }
    }

    /// Whether the clock is well formed.
    pub fn is_valid(&self) -> (valid: bool)
        ensures
            valid == self.wf(),
    {
        self.offset < RTC_PERIOD && self.sec_latch < 60 && self.min_latch < 60 && self.hour_latch
            < 24 && self.day_latch_high < 2
    }

    /// Hands the clock the wall-clock time.
    pub fn set_time(&mut self, now: u64)
        ensures
            *final(self) == old(self).at_time(now),
            old(self).wf() ==> final(self).wf(),
    {
        self.now = now;
    }

    /// Makes the present the zero reference.
    fn sync(&mut self)
        requires
            old(self).wf(),
        ensures
            *final(self) == old(self).synced(),
            final(self).wf(),
    {
        let delta: u64 = if self.halt || self.now < self.time_zero {
            0
        } else {
            self.now - self.time_zero
        };
        let total: u128 = self.offset as u128 + delta as u128;
        if total >= RTC_PERIOD as u128 {
            self.day_carry = true;
        }
        self.offset = (total % (RTC_PERIOD as u128)) as u64;
        self.time_zero = self.now;
    }

    /// Copies the live game time into the latched counters.
    fn latch(&mut self)
        requires
            old(self).wf(),
        ensures
            *final(self) == old(self).latched(),
            final(self).wf(),
    {
        self.sync();
        proof {
            lemma_game_time_parts(self.offset as int);
        }
        let t = self.offset;
        let days = t / SECONDS_PER_DAY;
        self.sec_latch = (t % 60) as u8;
        self.min_latch = ((t / 60) % 60) as u8;
        self.hour_latch = ((t / 3600) % 24) as u8;
        self.day_latch_low = (days % 256) as u8;
        self.day_latch_high = (days / 256) as u8;
    }

    /// Takes a latch command.
    pub fn write_command(&mut self, value: u8)
        requires
            old(self).wf(),
        ensures
            *final(self) == old(self).write_command_spec(value),
            final(self).wf(),
    {
        if value == 0x00 {
            self.latch_enabled = true;
        } else {
            if value == 0x01 && self.latch_enabled {
                self.latch();
            }
            self.latch_enabled = false;
        }
    }

    /// Reads a register: always the latched counter, never the live one.
    pub fn get_register(&self, register: u8) -> (value: u8)
        ensures
            value == self.get_register_spec(register),
    {
        if register == RTC_SECONDS {
            self.sec_latch
        } else if register == RTC_MINUTES {
            self.min_latch
        } else if register == RTC_HOURS {
            self.hour_latch
        } else if register == RTC_DAY_LOW {
            self.day_latch_low
        } else if register == RTC_DAY_HIGH {
            proof {
                lemma_day_high_bits(self.day_latch_high, self.halt, self.day_carry);
            }
            (self.day_latch_high & 0x01) | (if self.halt {
                0x40
            } else {
                0
            }) | (if self.day_carry {
                0x80
            } else {
                0
            })
        } else {
            0xFF
        }
    }

    /// Writes a register.
    pub fn set_register(&mut self, register: u8, value: u8)
        requires
            old(self).wf(),
        ensures
            *final(self) == old(self).set_register_spec(register, value),
            final(self).wf(),
    {
        if register < RTC_SECONDS || register > RTC_DAY_HIGH {
            return ;
        }
        proof {
            lemma_byte_bits(value);
        }
        self.sync();
        proof {
            lemma_game_time_parts(self.offset as int);
        }
        let t = self.offset;
        let mut days = t / SECONDS_PER_DAY;
        let mut hours = (t / 3600) % 24;
        let mut minutes = (t / 60) % 60;
        let mut seconds = t % 60;
        if register == RTC_SECONDS {
            seconds = (value % 60) as u64;
        } else if register == RTC_MINUTES {
            minutes = (value % 60) as u64;
        } else if register == RTC_HOURS {
            hours = (value % 24) as u64;
        } else if register == RTC_DAY_LOW {
            days = (days / 256) * 256 + value as u64;
        } else {
            days = days % 256 + ((value % 2) as u64) * 256;
            self.halt = value & 0x40 != 0;
            self.day_carry = value & 0x80 != 0;
        }
        self.offset = seconds + 60 * minutes + 3600 * hours + SECONDS_PER_DAY * days;
    }

    /// The record that holds this clock.
    pub fn save_state(&self) -> (record: Vec<u8>)
        ensures
            record@ == self.record(),
            record@.len() == RTC_RECORD_LEN,
    {
        proof {
            lemma_auto_spec_u64_to_from_le_bytes();
        }
        let mut record: Vec<u8> = Vec::new();
        record.push(RTC_STATE_VERSION);
        let mut zero = u64_to_le_bytes(self.time_zero);
        record.append(&mut zero);
        let mut offset = u64_to_le_bytes(self.offset);
        record.append(&mut offset);
        record.push(self.sec_latch);
        record.push(self.min_latch);
        record.push(self.hour_latch);
        record.push(self.day_latch_low);
        record.push(self.day_latch_high);
        record.push(if self.halt { 1 } else { 0 });
        record.push(if self.day_carry { 1 } else { 0 });
        record.push(if self.latch_enabled { 1 } else { 0 });
        record
    }

    /// The clock that `record` holds, at the wall-clock time `now`; `None`
    /// if the record holds none.
    pub fn load_state(record: &Vec<u8>, now: u64) -> (rtc: Option<RTC>)
        ensures
            rtc == RTC::parse_record(record@, now),
            rtc matches Some(clock) ==> clock.wf(),
    {
        if record.len() == 0 {
            return None;
        }
        let version = record[0];
        if version <= RTC_LEGACY_VERSION {
            if record.len() != RTC_LEGACY_RECORD_LEN {
                return None;
            }
            let time_zero = u64_from_le_bytes(slice_subrange(record.as_slice(), 1, 9));
            let mut rtc = RTC::new(now);
            rtc.time_zero = time_zero;
            return Some(rtc);
        }
        if version != RTC_STATE_VERSION || record.len() != RTC_RECORD_LEN {
            return None;
        }
        let time_zero = u64_from_le_bytes(slice_subrange(record.as_slice(), 1, 9));
        let offset = u64_from_le_bytes(slice_subrange(record.as_slice(), 9, 17));
        if offset >= RTC_PERIOD || record[17] >= 60 || record[18] >= 60 || record[19] >= 24
            || record[21] >= 2 || record[22] > 1 || record[23] > 1 || record[24] > 1 {
            return None;
        }
        Some(
            RTC {
                latch_enabled: record[24] == 1,
                time_zero,
                offset,
                now,
                sec_latch: record[17],
                min_latch: record[18],
                hour_latch: record[19],
                day_latch_low: record[20],
                day_latch_high: record[21],
                day_carry: record[23] == 1,
                halt: record[22] == 1,
            },
        )
    }

    /// The latched counters stand for the game time at the latch, modulo 512
    /// days.
    pub proof fn law_latch_takes_elapsed(self)
        requires
            self.wf(),
        ensures
            self.latched().wf(),
            self.latched().latched_seconds() == self.elapsed() % (RTC_PERIOD as int),
            self.latched().elapsed() == self.elapsed() % (RTC_PERIOD as int),
    {
        let t = self.elapsed() % (RTC_PERIOD as int);
        assert(self.synced().offset == t);
        lemma_game_time_parts(t);
        let latched = self.latched();
        assert(latched.sec_latch == t % 60);
        assert(latched.min_latch == (t / 60) % 60);
        assert(latched.hour_latch == (t / 3600) % 24);
        assert(latched.day_latch_low + 256 * latched.day_latch_high == t / 86_400);
        assert(latched.offset == t && latched.time_zero == latched.now);
    }

    /// The sequence 0x00, 0x01 latches, whatever state the latch was in, and
    /// leaves the latch not armed.
    pub proof fn law_latch_sequence(self)
        ensures
            self.write_command_spec(0x00).write_command_spec(0x01) == (RTC {
                latch_enabled: false,
                ..self.latched()
            }),
    {
    }

    /// While the latch is not armed, the command 0x01 latches nothing: the
    /// five latched counters stay, and so does all the rest of the clock.
    /// This is so on a new clock, and after any command but 0x00.
    pub proof fn law_unarmed_latch_keeps_counters(self, command: u8)
        ensures
            !self.latch_enabled ==> self.write_command_spec(0x01) == self,
            !RTC::started(self.now).latch_enabled,
            command != 0x00 ==> !self.write_command_spec(command).latch_enabled,
            command != 0x00 ==> ({
                let after = self.write_command_spec(command).write_command_spec(0x01);
                let before = self.write_command_spec(command);
                &&& after == before
                &&& after.sec_latch == before.sec_latch
                &&& after.min_latch == before.min_latch
                &&& after.hour_latch == before.hour_latch
                &&& after.day_latch_low == before.day_latch_low
                &&& after.day_latch_high == before.day_latch_high
            }),
            command != 0x00 && command != 0x01 ==> ({
                let after = self.write_command_spec(0x00).write_command_spec(
                    command,
                ).write_command_spec(0x01);
                &&& after.sec_latch == self.sec_latch
                &&& after.min_latch == self.min_latch
                &&& after.hour_latch == self.hour_latch
                &&& after.day_latch_low == self.day_latch_low
                &&& after.day_latch_high == self.day_latch_high
            }),
    {
    }

    /// What the registers read as does not depend on the wall clock: between
    /// two latches they stand still.
    pub proof fn law_registers_frozen(self, register: u8, later: u64)
        ensures
            self.at_time(later).get_register_spec(register) == self.get_register_spec(register),
    {
    }

    /// While the clock is halted, game time stands still, whatever the wall
    /// clock does.
    pub proof fn law_halted_clock_stands(self, later: u64)
        requires
            self.halt,
        ensures
            self.at_time(later).elapsed() == self.elapsed(),
    {
    }

    /// The day-carry flag is sticky: once set, no latch command clears it,
    /// and no write to a register but the one that holds it. That write sets
    /// it to bit 7 of the value written.
    pub proof fn law_day_carry_is_sticky(self, register: u8, value: u8)
        requires
            self.day_carry,
        ensures
            self.latched().day_carry,
            self.write_command_spec(value).day_carry,
            register != RTC_DAY_HIGH ==> self.set_register_spec(register, value).day_carry,
            self.set_register_spec(RTC_DAY_HIGH, value).day_carry == bit_set(value, 0x80),
    {
    }

    /// A second latch, made when the wall clock has gone on by some seconds,
    /// shows the game time of the first latch and those seconds more, modulo
    /// 512 days; if the clock is halted it shows the game time of the first.
    pub proof fn law_relatch_follows_clock(self, later: u64)
        requires
            self.wf(),
            later >= self.now,
        ensures
            ({
                let first = self.write_command_spec(0x00).write_command_spec(0x01);
                let second = first.at_time(later).write_command_spec(0x00).write_command_spec(
                    0x01,
                );
                second.latched_seconds() == if self.halt {
                    first.latched_seconds()
                } else {
                    (first.latched_seconds() + (later - self.now)) % (RTC_PERIOD as int)
                }
            }),
    {
        self.law_latch_takes_elapsed();
        let first = self.write_command_spec(0x00).write_command_spec(0x01);
        let moved = first.at_time(later);
        moved.law_latch_takes_elapsed();
    }

    /// A clock that is saved and loaded again, at the same wall-clock time,
    /// is the clock that was saved.
    pub proof fn law_save_load(self)
        requires
            self.wf(),
        ensures
            RTC::parse_record(self.record(), self.now) == Some(self),
    {
        lemma_auto_spec_u64_to_from_le_bytes();
        let record = self.record();
        assert(record.len() == 25);
        assert(record.subrange(1, 9) =~= spec_u64_to_le_bytes(self.time_zero));
        assert(record.subrange(9, 17) =~= spec_u64_to_le_bytes(self.offset));
    }
}

} // verus!
