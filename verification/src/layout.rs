//! The memory layout of the uniform record, shared by host and shader.
//!
//! The host writes the record as raw bytes and the shader reads it by its own
//! declaration, so the two must agree on every offset. The layout is written
//! down once here, checked by [`check_layout`], and compared at startup with the
//! size of the record that the host really writes.

use vstd::prelude::*;

verus! {

/// One member of a uniform record.
#[derive(Clone, Copy, Debug, PartialEq, Eq, Structural)]
pub struct Member {
    /// Byte offset from the start of the record.
    pub offset: u64,
    /// Number of bytes of the member.
    pub size: u64,
    /// Alignment that the shader requires of the member, in bytes.
    pub align: u64,
}

/// Number of bytes of the uniform record, trailing padding included.
pub const GLOBALS_SIZE: u64 = 16;

/// Offset of `resolution` in the uniform record.
pub const RESOLUTION_OFFSET: u64 = 0;

/// Offset of `time` in the uniform record.
pub const TIME_OFFSET: u64 = 8;

/// Offset of the trailing padding in the uniform record.
pub const PADDING_OFFSET: u64 = 12;

/// The members of the uniform record in order: `resolution`, two 32-bit floats
/// aligned to 8 bytes; `time`, one 32-bit float; one padding word.
pub open spec fn globals_layout() -> Seq<Member> {
    seq![
        Member { offset: 0, size: 8, align: 8 },
        Member { offset: 8, size: 4, align: 4 },
        Member { offset: 12, size: 4, align: 4 },
    ]
}

/// Member `i` starts where the one before it ends (the first at 0), at a multiple
/// of its alignment, and the record's size is a multiple of that alignment too.
pub open spec fn member_fits(members: Seq<Member>, size: u64, i: int) -> bool
    recommends
        0 <= i < members.len(),
{
    let m = members[i];
    &&& m.align > 0
    &&& m.offset % m.align == 0
    &&& size % m.align == 0
    &&& m.offset == if i == 0 {
        0
    } else {
        members[i - 1].offset + members[i - 1].size
    }
}

/// A record of `size` bytes is well laid out when every member fits and the last
/// one ends where the record ends. A record without members has size 0.
pub open spec fn well_laid_out(members: Seq<Member>, size: u64) -> bool {
    &&& forall|i: int| 0 <= i < members.len() ==> member_fits(members, size, i)
    &&& size == if members.len() == 0 {
        0
    } else {
        members.last().offset + members.last().size
    }
}

/// The members of the uniform record.
pub fn globals_members() -> (members: Vec<Member>)
    ensures
        members@ == globals_layout(),
{
    let mut members: Vec<Member> = Vec::new();
    members.push(Member { offset: RESOLUTION_OFFSET, size: 8, align: 8 });
    members.push(Member { offset: TIME_OFFSET, size: 4, align: 4 });
    members.push(Member { offset: PADDING_OFFSET, size: 4, align: 4 });
    assert(members@ =~= globals_layout());
    members
}

/// Says whether a record of `size` bytes with these members is well laid out.
pub fn check_layout(members: &Vec<Member>, size: u64) -> (ok: bool)
    ensures
        ok == well_laid_out(members@, size),
{
    let mut end: u64 = 0;
    let mut i: usize = 0;
    while i < members.len()
        invariant
            0 <= i <= members.len(),
            forall|k: int| 0 <= k < i ==> member_fits(members@, size, k),
            end == if i == 0 {
                0
            } else {
                members@[i - 1].offset + members@[i - 1].size
            },
        decreases members.len() - i,
    {
        let m = members[i];
        if m.align == 0 || m.offset % m.align != 0 || size % m.align != 0 || m.offset != end {
            assert(!member_fits(members@, size, i as int));
            return false;
        }
        match m.offset.checked_add(m.size) {
            Some(next) => {
                end = next;
            },
            None => {
                // The member ends beyond any size that the record can have.
                assert(!well_laid_out(members@, size)) by {
                    if i + 1 < members.len() {
                        assert(!member_fits(members@, size, i + 1));
                    }
                }
                return false;
            },
        }
        i = i + 1;
    }
    end == size
}

/// Says whether a host record of `host_size` bytes can be written to the uniform
/// buffer as it is: its size is that of the uniform record.
pub fn matches_host_record(host_size: u64) -> (ok: bool)
    ensures
        ok == (host_size == GLOBALS_SIZE),
{
    host_size == GLOBALS_SIZE
}

/// The uniform record is well laid out: its members follow one another without
/// gaps, each at its alignment, and the padding word brings the size to a
/// multiple of the largest alignment.
pub proof fn lemma_globals_well_laid_out()
    ensures
        well_laid_out(globals_layout(), GLOBALS_SIZE),
{
}

} // verus!
