use vstd::prelude::*;
use vstd::bytes::{spec_u32_to_le_bytes, u32_to_le_bytes};
use vstd::slice::slice_to_vec;
use vstd::string::StrSliceExecFns;
use vstd::utf8::encode_utf8;
use crate::pubkey::Pubkey;

verus! {

/// What identifies a record: its kind, and the values that tell it from the
/// other records of its kind.
pub enum RecordId {
    /// The program's configuration.
    Config,
    /// The administrator record of a principal.
    Admin { admin: Pubkey },
    /// The trainer record of a principal.
    Trainer { trainer: Pubkey },
    /// The schedule with the given id.
    Schedule { schedule_id: Seq<char> },
    /// The workout instance of a trainer at a date, hour and minute.
    Instance { trainer: Pubkey, yyyymmdd: u32, hour: u8, minute: u8 },
    /// The attendance record of a user for the instance at an address.
    Attendance { instance: Pubkey, user: Pubkey },
    /// The counter of a user for a month.
    Monthly { user: Pubkey, yyyymm: u32 },
}

impl RecordId {
    /// The tag of the record's kind, as text.
    pub open spec fn tag(self) -> Seq<char> {
        match self {
            RecordId::Config => "config"@,
            RecordId::Admin { .. } => "admin"@,
            RecordId::Trainer { .. } => "trainer"@,
            RecordId::Schedule { .. } => "schedule"@,
            RecordId::Instance { .. } => "instance"@,
            RecordId::Attendance { .. } => "attendance"@,
            RecordId::Monthly { .. } => "monthly"@,
        }
    }

    /// The seeds from which the record's address is derived: the tag, then
    /// the identifying values in their order. An address is 32 bytes, a date
    /// or a month four bytes with the least significant first, an hour or a
    /// minute one byte, and a schedule id its UTF-8 bytes.
    pub open spec fn seeds(self) -> Seq<Seq<u8>> {
        match self {
            RecordId::Config => seq![encode_utf8(self.tag())],
            RecordId::Admin { admin } => seq![encode_utf8(self.tag()), admin@],
            RecordId::Trainer { trainer } => seq![encode_utf8(self.tag()), trainer@],
            RecordId::Schedule { schedule_id } => seq![
                encode_utf8(self.tag()),
                encode_utf8(schedule_id),
            ],
            RecordId::Instance { trainer, yyyymmdd, hour, minute } => seq![
                encode_utf8(self.tag()),
                trainer@,
                spec_u32_to_le_bytes(yyyymmdd),
                seq![hour],
                seq![minute],
            ],
            RecordId::Attendance { instance, user } => seq![
                encode_utf8(self.tag()),
                instance@,
                user@,
            ],
            RecordId::Monthly { user, yyyymm } => seq![
                encode_utf8(self.tag()),
                user@,
                spec_u32_to_le_bytes(yyyymm),
            ],
        }
    }

    /// The seeds one after the other: the bytes that the record's address is
    /// a digest of.
    pub open spec fn preimage(self) -> Seq<u8> {
        self.seeds().flatten()
    }
}

impl RecordId {
    /// The identifying values, one after the other, as they follow the tag.
    pub open spec fn body(self) -> Seq<u8> {
        match self {
            RecordId::Config => Seq::empty(),
            RecordId::Admin { admin } => admin@,
            RecordId::Trainer { trainer } => trainer@,
            RecordId::Schedule { schedule_id } => encode_utf8(schedule_id),
            RecordId::Instance { trainer, yyyymmdd, hour, minute } => trainer@
                + spec_u32_to_le_bytes(yyyymmdd) + seq![hour] + seq![minute],
            RecordId::Attendance { instance, user } => instance@ + user@,
            RecordId::Monthly { user, yyyymm } => user@ + spec_u32_to_le_bytes(yyyymm),
        }
    }

    /// A tag takes one byte per letter, and the byte is the letter's code.
    pub proof fn lemma_tag_bytes(self)
        ensures
            encode_utf8(self.tag()).len() == self.tag().len(),
            self.tag().len() >= 5,
            forall|i: int|
                0 <= i < self.tag().len() ==> #[trigger] encode_utf8(self.tag())[i]
                    == self.tag()[i] as u8,
    {
        reveal_strlit("config");
        reveal_strlit("admin");
        reveal_strlit("trainer");
        reveal_strlit("schedule");
        reveal_strlit("instance");
        reveal_strlit("attendance");
        reveal_strlit("monthly");
        assert(vstd::utf8::is_ascii_chars(self.tag()));
        vstd::utf8::is_ascii_chars_encode_utf8(self.tag());
    }

    /// The preimage is the tag followed by the identifying values.
    pub proof fn lemma_preimage_layout(self)
        ensures
            self.preimage() == encode_utf8(self.tag()) + self.body(),
    {
        reveal_with_fuel(Seq::flatten, 6);
        assert(self.preimage() =~= encode_utf8(self.tag()) + self.body());
    }

    /// No two records share a preimage: records of two kinds differ in the
    /// tag, and records of one kind in an identifying value. So two records
    /// have one address only where the digest itself collides.
    pub proof fn lemma_preimage_identifies_record(self, other: RecordId)
        requires
            self.preimage() == other.preimage(),
        ensures
            self == other,
    {
        self.lemma_preimage_layout();
        other.lemma_preimage_layout();
        self.lemma_tag_bytes();
        other.lemma_tag_bytes();
        reveal_strlit("config");
        reveal_strlit("admin");
        reveal_strlit("trainer");
        reveal_strlit("schedule");
        reveal_strlit("instance");
        reveal_strlit("attendance");
        reveal_strlit("monthly");
        let left = encode_utf8(self.tag());
        let right = encode_utf8(other.tag());
        assert(self.preimage()[0] == left[0]);
        assert(self.preimage()[1] == left[1]);
        assert(other.preimage()[0] == right[0]);
        assert(other.preimage()[1] == right[1]);
        assert(self.tag() == other.tag());
        assert(self.body() =~= self.preimage().subrange(
            left.len() as int,
            self.preimage().len() as int,
        ));
        assert(other.body() =~= other.preimage().subrange(
            right.len() as int,
            other.preimage().len() as int,
        ));
        assert(self.body() == other.body());
        vstd::bytes::lemma_auto_spec_u32_to_from_le_bytes();
        match (self, other) {
            (RecordId::Config, RecordId::Config) => {},
            (RecordId::Admin { admin: a }, RecordId::Admin { admin: b }) => {
                Pubkey::lemma_eq_by_view(a, b);
            },
            (RecordId::Trainer { trainer: a }, RecordId::Trainer { trainer: b }) => {
                Pubkey::lemma_eq_by_view(a, b);
            },
            (RecordId::Schedule { schedule_id: a }, RecordId::Schedule { schedule_id: b }) => {
                vstd::utf8::encode_utf8_decode_utf8(a);
                vstd::utf8::encode_utf8_decode_utf8(b);
            },
            (
                RecordId::Instance { trainer: a, yyyymmdd: d1, hour: h1, minute: m1 },
                RecordId::Instance { trainer: b, yyyymmdd: d2, hour: h2, minute: m2 },
            ) => {
                let x = self.body();
                let y = other.body();
                assert(a@ =~= x.subrange(0, 32));
                assert(b@ =~= y.subrange(0, 32));
                assert(spec_u32_to_le_bytes(d1) =~= x.subrange(32, 36));
                assert(spec_u32_to_le_bytes(d2) =~= y.subrange(32, 36));
                assert(h1 == x[36] && h2 == y[36]);
                assert(m1 == x[37] && m2 == y[37]);
                Pubkey::lemma_eq_by_view(a, b);
            },
            (
                RecordId::Attendance { instance: i1, user: u1 },
                RecordId::Attendance { instance: i2, user: u2 },
            ) => {
                let x = self.body();
                let y = other.body();
                assert(i1@ =~= x.subrange(0, 32));
                assert(i2@ =~= y.subrange(0, 32));
                assert(u1@ =~= x.subrange(32, 64));
                assert(u2@ =~= y.subrange(32, 64));
                Pubkey::lemma_eq_by_view(i1, i2);
                Pubkey::lemma_eq_by_view(u1, u2);
            },
            (
                RecordId::Monthly { user: u1, yyyymm: m1 },
                RecordId::Monthly { user: u2, yyyymm: m2 },
            ) => {
                let x = self.body();
                let y = other.body();
                assert(u1@ =~= x.subrange(0, 32));
                assert(u2@ =~= y.subrange(0, 32));
                assert(spec_u32_to_le_bytes(m1) =~= x.subrange(32, 36));
                assert(spec_u32_to_le_bytes(m2) =~= y.subrange(32, 36));
                Pubkey::lemma_eq_by_view(u1, u2);
            },
            _ => {},
        }
    }
}

/// What the seeds hold.
pub open spec fn seeds_view(seeds: Vec<Vec<u8>>) -> Seq<Seq<u8>> {
    Seq::new(seeds@.len(), |i: int| seeds@[i]@)
}

/// The bytes of an address.
fn key_seed(key: &Pubkey) -> (seed: Vec<u8>)
    ensures
        seed@ == key@,
{
    slice_to_vec(key.bytes.as_slice())
}

/// The one byte of an hour or a minute.
fn byte_seed(value: u8) -> (seed: Vec<u8>)
    ensures
        seed@ == seq![value],
{
    let mut seed: Vec<u8> = Vec::new();
    seed.push(value);
    assert(seed@ =~= seq![value]);
    seed
}

/// Seeds of the program's configuration.
pub fn config_seeds() -> (seeds: Vec<Vec<u8>>)
    ensures
        seeds_view(seeds) == RecordId::Config.seeds(),
{
    let mut seeds: Vec<Vec<u8>> = Vec::new();
    seeds.push("config".as_bytes_vec());
    assert(seeds_view(seeds) =~= RecordId::Config.seeds());
    seeds
}

/// Seeds of the administrator record of a principal.
pub fn admin_seeds(admin: &Pubkey) -> (seeds: Vec<Vec<u8>>)
    ensures
        seeds_view(seeds) == (RecordId::Admin { admin: *admin }).seeds(),
{
    let mut seeds: Vec<Vec<u8>> = Vec::new();
    seeds.push("admin".as_bytes_vec());
    seeds.push(key_seed(admin));
    assert(seeds_view(seeds) =~= (RecordId::Admin { admin: *admin }).seeds());
    seeds
}

/// Seeds of the trainer record of a principal.
pub fn trainer_seeds(trainer: &Pubkey) -> (seeds: Vec<Vec<u8>>)
    ensures
        seeds_view(seeds) == (RecordId::Trainer { trainer: *trainer }).seeds(),
{
    let mut seeds: Vec<Vec<u8>> = Vec::new();
    seeds.push("trainer".as_bytes_vec());
    seeds.push(key_seed(trainer));
    assert(seeds_view(seeds) =~= (RecordId::Trainer { trainer: *trainer }).seeds());
    seeds
}

/// Seeds of the schedule with the given id.
pub fn schedule_seeds(schedule_id: &str) -> (seeds: Vec<Vec<u8>>)
    ensures
        seeds_view(seeds) == (RecordId::Schedule { schedule_id: schedule_id@ }).seeds(),
{
    let mut seeds: Vec<Vec<u8>> = Vec::new();
    seeds.push("schedule".as_bytes_vec());
    seeds.push(schedule_id.as_bytes_vec());
    assert(seeds_view(seeds) =~= (RecordId::Schedule { schedule_id: schedule_id@ }).seeds());
    seeds
}

/// Seeds of the workout instance of a trainer at a date, hour and minute.
pub fn instance_seeds(trainer: &Pubkey, yyyymmdd: u32, hour: u8, minute: u8) -> (seeds: Vec<
    Vec<u8>,
>)
    ensures
        seeds_view(seeds) == (RecordId::Instance {
            trainer: *trainer,
            yyyymmdd,
            hour,
            minute,
        }).seeds(),
{
    let mut seeds: Vec<Vec<u8>> = Vec::new();
    seeds.push("instance".as_bytes_vec());
    seeds.push(key_seed(trainer));
    seeds.push(u32_to_le_bytes(yyyymmdd));
    seeds.push(byte_seed(hour));
    seeds.push(byte_seed(minute));
    assert(seeds_view(seeds) =~= (RecordId::Instance {
        trainer: *trainer,
        yyyymmdd,
        hour,
        minute,
    }).seeds());
    seeds
}

/// Seeds of the attendance record of a user for the instance at an address.
pub fn attendance_seeds(instance: &Pubkey, user: &Pubkey) -> (seeds: Vec<Vec<u8>>)
    ensures
        seeds_view(seeds) == (RecordId::Attendance { instance: *instance, user: *user }).seeds(),
{
    let mut seeds: Vec<Vec<u8>> = Vec::new();
    seeds.push("attendance".as_bytes_vec());
    seeds.push(key_seed(instance));
    seeds.push(key_seed(user));
    assert(seeds_view(seeds) =~= (RecordId::Attendance {
        instance: *instance,
        user: *user,
    }).seeds());
    seeds
}

/// Seeds of the counter of a user for a month.
pub fn monthly_seeds(user: &Pubkey, yyyymm: u32) -> (seeds: Vec<Vec<u8>>)
    ensures
        seeds_view(seeds) == (RecordId::Monthly { user: *user, yyyymm }).seeds(),
{
    let mut seeds: Vec<Vec<u8>> = Vec::new();
    seeds.push("monthly".as_bytes_vec());
    seeds.push(key_seed(user));
    seeds.push(u32_to_le_bytes(yyyymm));
    assert(seeds_view(seeds) =~= (RecordId::Monthly { user: *user, yyyymm }).seeds());
    seeds
}

} // verus!
