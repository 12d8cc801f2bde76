//! Append-only audit record of virtual→physical mappings.
//!
//! The record holds at most [`MAX_MAPPINGS`] live entries; each entry names
//! up to [`MAX_USERS`] users. Entries are appended, never removed, and kept
//! ordered by virtual start address so that introspection output is always
//! address-ordered. Device entries can be looked up by their exact physical
//! window, which is how a second driver's request for the same MMIO window
//! is detected and de-duplicated.

use vstd::prelude::*;

use vstd::string::StringExecFns;

use crate::GRANULE_SIZE;
use crate::attributes::{AttributeFields, MemAttributes};
use crate::memory::{Address, Physical, Virtual};
use crate::page::MemoryRegion;

verus! {

broadcast use crate::memory::lemma_address_view_bounds;

/// Capacity of the mapping record.
pub const MAX_MAPPINGS: usize = 20;

/// User-name slots per entry.
pub const MAX_USERS: usize = 5;

/// The mathematical content of one mapping record entry.
pub struct MappingRecordModel {
    /// Names of the entities using the mapping.
    pub users: Seq<Seq<char>>,
    /// Physical start address of the mapping.
    pub phys_start_addr: int,
    /// Virtual start address of the mapping.
    pub virt_start_addr: int,
    /// Number of pages mapped.
    pub num_pages: int,
    /// The attributes the mapping was made with.
    pub attribute_fields: AttributeFields,
}

/// Type describing a virtual memory mapping.
pub struct MappingRecordEntry {
    users: Vec<&'static str>,
    phys_start_addr: Address<Physical>,
    virt_start_addr: Address<Virtual>,
    num_pages: usize,
    attribute_fields: AttributeFields,
}

impl View for MappingRecordEntry {
    type V = MappingRecordModel;

    closed spec fn view(&self) -> MappingRecordModel {
        MappingRecordModel {
            users: Seq::new(self.users@.len(), |i: int| self.users@[i]@),
            phys_start_addr: self.phys_start_addr@,
            virt_start_addr: self.virt_start_addr@,
            num_pages: self.num_pages as int,
            attribute_fields: self.attribute_fields,
        }
    }
}

/// An entry always names its creator and never more than [`MAX_USERS`]
/// users; it covers at least one page, and neither its virtual nor its
/// physical window wraps around the address space.
pub open spec fn spec_entry_wf(m: MappingRecordModel) -> bool {
    &&& 1 <= m.users.len() <= MAX_USERS
    &&& m.num_pages >= 1
    &&& 0 <= m.virt_start_addr && m.virt_start_addr + m.num_pages * GRANULE_SIZE <= usize::MAX
    &&& 0 <= m.phys_start_addr && m.phys_start_addr + m.num_pages * GRANULE_SIZE <= usize::MAX
}

impl MappingRecordEntry {
    /// Create an entry for one mapping, with `name` as its first user.
    /// A zero-page window is ruled out: the dump would fault computing its
    /// inclusive end, which makes such an entry a programming error.
    pub fn new(
        name: &'static str,
        virt_region: &MemoryRegion<Virtual>,
        phys_region: &MemoryRegion<Physical>,
        attr: &AttributeFields,
    ) -> (r: Self)
        requires
            phys_region.end_exclusive() > phys_region.start(),
            virt_region.start() + (phys_region.end_exclusive() - phys_region.start())
                <= usize::MAX,
        ensures
            r@.users == seq![name@],
            r@.phys_start_addr == phys_region.start(),
            r@.virt_start_addr == virt_region.start(),
            r@.num_pages == (phys_region.end_exclusive() - phys_region.start())
                / GRANULE_SIZE as int,
            r@.attribute_fields == *attr,
            spec_entry_wf(r@),
    {
        let mut users: Vec<&'static str> = Vec::new();
        users.push(name);
        let num_pages = phys_region.num_pages();
        let r = MappingRecordEntry {
            users,
            phys_start_addr: phys_region.start_page().address(),
            virt_start_addr: virt_region.start_page().address(),
            num_pages,
            attribute_fields: *attr,
        };
        proof {
            assert(r@.users =~= seq![name@]);
        }
        r
    }

    /// The mapping's virtual start address.
    pub fn virt_start_addr(&self) -> (r: Address<Virtual>)
        ensures
            r@ == self@.virt_start_addr,
    {
        self.virt_start_addr
    }

    /// The mapping's physical start address.
    pub fn phys_start_addr(&self) -> (r: Address<Physical>)
        ensures
            r@ == self@.phys_start_addr,
    {
        self.phys_start_addr
    }

    /// The number of pages mapped.
    pub fn num_pages(&self) -> (r: usize)
        ensures
            r == self@.num_pages,
    {
        self.num_pages
    }

    /// The attributes the mapping was made with.
    pub fn attribute_fields(&self) -> (r: AttributeFields)
        ensures
            r == self@.attribute_fields,
    {
        self.attribute_fields
    }

    /// The names recorded for this mapping.
    pub fn user(&self, index: usize) -> (r: &'static str)
        requires
            index < self@.users.len(),
        ensures
            r@ == self@.users[index as int],
    {
        self.users[index]
    }

    /// How many names are recorded for this mapping.
    pub fn num_users(&self) -> (r: usize)
        ensures
            r == self@.users.len(),
    {
        self.users.len()
    }

    /// Record another user of this mapping. Exhaustion of the name slots is
    /// reported, not fatal: a lost audit name does not affect mapping
    /// correctness.
    pub fn add_user(&mut self, user: &'static str) -> (r: Result<(), &'static str>)
        requires
            spec_entry_wf(old(self)@),
        ensures
            r is Ok <==> old(self)@.users.len() < MAX_USERS,
            r is Ok ==> final(self)@ == (MappingRecordModel {
                users: old(self)@.users.push(user@),
                ..old(self)@
            }),
            r is Err ==> *final(self) == *old(self) && r->Err_0@
                == "Storage for user info exhausted"@,
            spec_entry_wf(final(self)@),
    {
        if self.users.len() >= MAX_USERS {
            return Err("Storage for user info exhausted");
        }
        self.users.push(user);
        proof {
            assert(self@.users =~= old(self)@.users.push(user@));
        }
        Ok(())
    }
}

/// Entries ordered by virtual start address, ascending.
pub open spec fn spec_sorted_by_virt(s: Seq<MappingRecordModel>) -> bool {
    forall|i: int, j: int|
        0 <= i < j < s.len() ==> #[trigger] s[i].virt_start_addr <= #[trigger] s[j].virt_start_addr
}

/// Whether `m` records a Device-class mapping of exactly the physical
/// window `{phys_start, num_pages}`.
pub open spec fn spec_is_device_record(
    m: MappingRecordModel,
    phys_start: int,
    num_pages: int,
) -> bool {
    &&& m.attribute_fields.mem_attributes == MemAttributes::Device
    &&& m.phys_start_addr == phys_start
    &&& m.num_pages == num_pages
}

/// The audit log of active kernel mappings.
pub struct MappingRecords {
    inner: Vec<MappingRecordEntry>,
}

impl View for MappingRecords {
    type V = Seq<MappingRecordModel>;

    closed spec fn view(&self) -> Seq<MappingRecordModel> {
        Seq::new(self.inner@.len(), |i: int| self.inner@[i]@)
    }
}

impl MappingRecords {
    /// Capacity respected, every entry well-formed.
    pub open spec fn wf(&self) -> bool {
        &&& self@.len() <= MAX_MAPPINGS
        &&& forall|i: int| 0 <= i < self@.len() ==> spec_entry_wf(#[trigger] self@[i])
    }

    /// Create an empty record.
    pub fn new() -> (r: Self)
        ensures
            r@ =~= Seq::<MappingRecordModel>::empty(),
            r.wf(),
    {
        MappingRecords { inner: Vec::new() }
    }

    /// Number of live entries.
    pub fn size(&self) -> (r: usize)
        ensures
            r == self@.len(),
    {
        self.inner.len()
    }

    /// Access an entry by position.
    pub fn entry(&self, index: usize) -> (r: &MappingRecordEntry)
        requires
            index < self@.len(),
        ensures
            r@ == self@[index as int],
    {
        &self.inner[index]
    }

    /// Restore the order by virtual start address after an append:
    /// insertion sort, a no-op on already ordered input.
    pub fn sort(&mut self)
        ensures
            final(self)@.to_multiset() == old(self)@.to_multiset(),
            final(self)@.len() == old(self)@.len(),
            spec_sorted_by_virt(final(self)@),
            old(self).wf() ==> final(self).wf(),
    {
        let ghost orig = self@;
        let len: usize = self.inner.len();
        for i in 0..len
            invariant
                len == self@.len(),
                self@.to_multiset() == orig.to_multiset(),
                forall|p: int, q: int|
                    0 <= p < q < i as int ==> #[trigger] self@[p].virt_start_addr
                        <= #[trigger] self@[q].virt_start_addr,
                (forall|q: int| 0 <= q < orig.len() ==> spec_entry_wf(#[trigger] orig[q]))
                    ==> forall|q: int| 0 <= q < self@.len() ==> spec_entry_wf(#[trigger] self@[q]),
        {
            let mut j: usize = i;
            while j > 0 && self.inner[j - 1].virt_start_addr().as_usize()
                > self.inner[j].virt_start_addr().as_usize()
                invariant
                    0 <= j <= i < len,
                    len == self@.len(),
                    self@.to_multiset() == orig.to_multiset(),
                    forall|p: int, q: int|
                        0 <= p < q <= i as int && q != j as int ==> #[trigger] self@[p].virt_start_addr
                            <= #[trigger] self@[q].virt_start_addr,
                    (forall|q: int| 0 <= q < orig.len() ==> spec_entry_wf(#[trigger] orig[q]))
                        ==> forall|q: int|
                        0 <= q < self@.len() ==> spec_entry_wf(#[trigger] self@[q]),
                decreases j,
            {
                let ghost before = self@;
                let moved = self.inner.remove(j);
                self.inner.insert(j - 1, moved);
                proof {
                    assert(self@ =~= before.update(j - 1, before[j as int]).update(
                        j as int,
                        before[j - 1],
                    ));
                    lemma_swap_preserves_multiset(before, j - 1, j as int);
                }
                j = j - 1;
            }
            proof {
                assert forall|p: int, q: int|
                    0 <= p < q <= i as int implies #[trigger] self@[p].virt_start_addr
                    <= #[trigger] self@[q].virt_start_addr by {
                    if q == j as int {
                        if p < j as int - 1 {
                            assert(self@[p].virt_start_addr <= self@[j as int
                                - 1].virt_start_addr);
                        }
                    }
                }
            }
        }
    }

    /// Append a record of one mapping and restore the address order. Fails,
    /// leaving the record unchanged, when all entry slots are taken. A
    /// zero-page window is ruled out, as a well-formed entry cannot hold
    /// one.
    pub fn add(
        &mut self,
        name: &'static str,
        virt_region: &MemoryRegion<Virtual>,
        phys_region: &MemoryRegion<Physical>,
        attr: &AttributeFields,
    ) -> (r: Result<(), &'static str>)
        requires
            old(self).wf(),
            phys_region.end_exclusive() > phys_region.start(),
            virt_region.start() + (phys_region.end_exclusive() - phys_region.start())
                <= usize::MAX,
        ensures
            final(self).wf(),
            r is Ok <==> old(self)@.len() < MAX_MAPPINGS,
            r is Err ==> *final(self) == *old(self) && r->Err_0@
                == "Storage for mapping info exhausted"@,
            r is Ok ==> final(self)@.to_multiset() == old(self)@.to_multiset().insert(
                spec_new_record(
                    name@,
                    virt_region.start(),
                    phys_region.start(),
                    (phys_region.end_exclusive() - phys_region.start()) / GRANULE_SIZE as int,
                    *attr,
                ),
            ),
            r is Ok ==> final(self)@.len() == old(self)@.len() + 1,
            r is Ok ==> spec_sorted_by_virt(final(self)@),
    {
        if self.inner.len() >= MAX_MAPPINGS {
            return Err("Storage for mapping info exhausted");
        }
        let entry = MappingRecordEntry::new(name, virt_region, phys_region, attr);
        let ghost before = self@;
        let ghost model = entry@;
        self.inner.push(entry);
        proof {
            broadcast use vstd::seq_lib::group_to_multiset_ensures;

            assert(model == spec_new_record(
                name@,
                virt_region.start(),
                phys_region.start(),
                (phys_region.end_exclusive() - phys_region.start()) / GRANULE_SIZE as int,
                *attr,
            ));
            assert(self@ =~= before.push(model));
            assert(before.push(model).to_multiset() == before.to_multiset().insert(model));
        }
        self.sort();
        Ok(())
    }

    /// Scan for a previously recorded Device-class entry whose
    /// `{phys_start, page count}` exactly matches `phys_region`. A
    /// CacheableDRAM entry over the same window never matches.
    pub fn find_device_record(&self, phys_region: &MemoryRegion<Physical>) -> (r: Option<usize>)
        ensures
            r is Some ==> r->Some_0 < self@.len() && spec_is_device_record(
                self@[r->Some_0 as int],
                phys_region.start(),
                (phys_region.end_exclusive() - phys_region.start()) / GRANULE_SIZE as int,
            ),
            r is None ==> forall|i: int|
                0 <= i < self@.len() ==> !spec_is_device_record(
                    #[trigger] self@[i],
                    phys_region.start(),
                    (phys_region.end_exclusive() - phys_region.start()) / GRANULE_SIZE as int,
                ),
    {
        let phys_start: usize = phys_region.start_page().address().as_usize();
        let num_pages: usize = phys_region.num_pages();
        let len: usize = self.inner.len();
        for i in 0..len
            invariant
                len == self@.len(),
                phys_start == phys_region.start(),
                num_pages == (phys_region.end_exclusive() - phys_region.start())
                    / GRANULE_SIZE as int,
                forall|q: int|
                    0 <= q < i ==> !spec_is_device_record(
                        #[trigger] self@[q],
                        phys_region.start(),
                        (phys_region.end_exclusive() - phys_region.start()) / GRANULE_SIZE as int,
                    ),
        {
            let entry = &self.inner[i];
            let is_device = match entry.attribute_fields().mem_attributes {
                MemAttributes::Device => true,
                MemAttributes::CacheableDRAM => false,
            };
            if is_device && entry.phys_start_addr().as_usize() == phys_start && entry.num_pages()
                == num_pages {
                return Some(i);
            }
        }
        None
    }

    /// Record another user on the entry at `index`. Exhaustion of the name
    /// slots is reported, not fatal.
    pub fn add_user_at(&mut self, index: usize, user: &'static str) -> (r: Result<
        (),
        &'static str,
    >)
        requires
            old(self).wf(),
            index < old(self)@.len(),
        ensures
            final(self).wf(),
            final(self)@.len() == old(self)@.len(),
            r is Ok <==> old(self)@[index as int].users.len() < MAX_USERS,
            r is Ok ==> final(self)@ =~= old(self)@.update(
                index as int,
                MappingRecordModel {
                    users: old(self)@[index as int].users.push(user@),
                    ..old(self)@[index as int]
                },
            ),
            r is Err ==> final(self)@ == old(self)@ && r->Err_0@
                == "Storage for user info exhausted"@,
            forall|i: int|
                0 <= i < old(self)@.len() && i != index ==> final(self)@[i] == old(self)@[i],
            final(self)@[index as int].virt_start_addr == old(self)@[index as int].virt_start_addr,
    {
        let entry = &mut self.inner[index];
        let r = entry.add_user(user);
        proof {
            if r is Ok {
                assert(self@ =~= old(self)@.update(
                    index as int,
                    MappingRecordModel {
                        users: old(self)@[index as int].users.push(user@),
                        ..old(self)@[index as int]
                    },
                ));
            } else {
                assert(self@ =~= old(self)@);
            }
        }
        r
    }
}

/// Divider line of the mapping dump.
pub const DUMP_DIVIDER: &'static str =
    "      ----------------------------------------------------------------------------\n";

/// Column header line of the mapping dump.
pub const DUMP_HEADER: &'static str =
    "      Virtual              Physical             Size      Attr       Entity\n";

/// Indentation that lines an additional user name up under its entry.
pub const DUMP_USER_PREFIX: &'static str =
    "                                                               | ";

/// The dump text of a memory class.
pub open spec fn spec_mem_attr_text(a: MemAttributes) -> Seq<char> {
    match a {
        MemAttributes::CacheableDRAM => "Cache"@,
        MemAttributes::Device => "Device"@,
    }
}

/// The dump text of an access-permission pair.
pub open spec fn spec_acc_perms_text(a: crate::attributes::AccessPermissions) -> Seq<char> {
    match a {
        crate::attributes::AccessPermissions::ReadOnly => "RO"@,
        crate::attributes::AccessPermissions::ReadWrite => "RW"@,
    }
}

/// The dump text of the execute intent.
pub open spec fn spec_execute_text(execute_never: bool) -> Seq<char> {
    if execute_never {
        "XN"@
    } else {
        "X"@
    }
}

/// One line per user name past the first, each indented under its entry.
pub open spec fn spec_user_lines(users: Seq<Seq<char>>, k: int) -> Seq<char>
    decreases users.len() - k,
{
    if k < 1 || k >= users.len() {
        Seq::empty()
    } else {
        DUMP_USER_PREFIX@ + users[k] + "\n"@ + spec_user_lines(users, k + 1)
    }
}

/// The dump text of one entry: its virtual and physical windows, the size
/// in the largest fitting unit, the attributes, the first user, and one
/// indented line per additional user.
pub open spec fn spec_entry_text(m: MappingRecordModel) -> Seq<char> {
    let size = m.num_pages * GRANULE_SIZE;
    "      "@ + crate::render::spec_hex_addr(m.virt_start_addr) + ".."@
        + crate::render::spec_hex_addr(m.virt_start_addr + size - 1) + " --> "@
        + crate::render::spec_hex_addr(m.phys_start_addr) + ".."@ + crate::render::spec_hex_addr(
        m.phys_start_addr + size - 1,
    ) + " | "@ + crate::render::spec_decimal(crate::spec_size_human_readable_ceil(size)) + " "@
        + crate::spec_size_unit(size) + " | "@ + spec_mem_attr_text(m.attribute_fields.mem_attributes)
        + " "@ + spec_acc_perms_text(m.attribute_fields.acc_perms) + " "@ + spec_execute_text(
        m.attribute_fields.execute_never,
    ) + " | "@ + m.users[0] + "\n"@ + spec_user_lines(m.users, 1)
}

/// The dump texts of the entries from position `i` on, in stored order.
pub open spec fn spec_entries_text(models: Seq<MappingRecordModel>, i: int) -> Seq<char>
    decreases models.len() - i,
{
    if i < 0 || i >= models.len() {
        Seq::empty()
    } else {
        spec_entry_text(models[i]) + spec_entries_text(models, i + 1)
    }
}

/// The full dump: divider, header, divider, one block per entry in stored
/// (address-sorted) order, divider.
pub open spec fn spec_print(models: Seq<MappingRecordModel>) -> Seq<char> {
    DUMP_DIVIDER@ + DUMP_HEADER@ + DUMP_DIVIDER@ + spec_entries_text(models, 0) + DUMP_DIVIDER@
}

/// Render the dump block of one entry.
#[verifier::loop_isolation(false)]
fn render_entry(entry: &MappingRecordEntry) -> (r: String)
    requires
        spec_entry_wf(entry@),
    ensures
        r@ == spec_entry_text(entry@),
{
    let mut text = String::new();
    let size: usize = entry.num_pages() * GRANULE_SIZE;
    let virt_start: usize = entry.virt_start_addr().as_usize();
    let virt_end_inclusive: usize = virt_start + (size - 1);
    let phys_start: usize = entry.phys_start_addr().as_usize();
    let phys_end_inclusive: usize = phys_start + (size - 1);
    let amount_unit = crate::size_human_readable_ceil(size);
    text.append("      ");
    let rendered = crate::render::hex_addr(virt_start);
    text.append(rendered.as_str());
    text.append("..");
    let rendered = crate::render::hex_addr(virt_end_inclusive);
    text.append(rendered.as_str());
    text.append(" --> ");
    let rendered = crate::render::hex_addr(phys_start);
    text.append(rendered.as_str());
    text.append("..");
    let rendered = crate::render::hex_addr(phys_end_inclusive);
    text.append(rendered.as_str());
    text.append(" | ");
    let rendered = crate::render::decimal(amount_unit.0 as u64);
    text.append(rendered.as_str());
    text.append(" ");
    text.append(amount_unit.1);
    text.append(" | ");
    let attr = entry.attribute_fields();
    text.append(
        match attr.mem_attributes {
            MemAttributes::CacheableDRAM => "Cache",
            MemAttributes::Device => "Device",
        },
    );
    text.append(" ");
    text.append(
        match attr.acc_perms {
            crate::attributes::AccessPermissions::ReadOnly => "RO",
            crate::attributes::AccessPermissions::ReadWrite => "RW",
        },
    );
    text.append(" ");
    text.append(
        if attr.execute_never {
            "XN"
        } else {
            "X"
        },
    );
    text.append(" | ");
    text.append(entry.user(0));
    text.append("\n");
    let ghost header = text@;
    proof {
        assert(header =~= spec_entry_text(entry@).subrange(
            0,
            spec_entry_text(entry@).len() - spec_user_lines(entry@.users, 1).len(),
        ));
    }
    let num_users = entry.num_users();
    for k in 1..num_users
        invariant
            num_users == entry@.users.len(),
            text@ + spec_user_lines(entry@.users, k as int) == header + spec_user_lines(
                entry@.users,
                1,
            ),
    {
        let ghost before = text@;
        text.append(DUMP_USER_PREFIX);
        text.append(entry.user(k));
        text.append("\n");
        proof {
            assert(spec_user_lines(entry@.users, k as int) == DUMP_USER_PREFIX@
                + entry@.users[k as int] + "\n"@ + spec_user_lines(entry@.users, k + 1));
            assert(text@ + spec_user_lines(entry@.users, k + 1) =~= before + spec_user_lines(
                entry@.users,
                k as int,
            ));
        }
    }
    proof {
        assert(spec_user_lines(entry@.users, num_users as int) =~= Seq::<char>::empty());
        assert(text@ =~= header + spec_user_lines(entry@.users, 1));
        assert(header + spec_user_lines(entry@.users, 1) =~= spec_entry_text(entry@));
    }
    text
}

impl MappingRecords {
    /// Human-readable dump of all recorded mappings, one block per entry in
    /// stored (address-sorted) order, with one indented line per additional
    /// user.
    #[verifier::loop_isolation(false)]
    pub fn print(&self) -> (r: String)
        requires
            self.wf(),
        ensures
            r@ == spec_print(self@),
    {
        let mut text = String::new();
        text.append(DUMP_DIVIDER);
        text.append(DUMP_HEADER);
        text.append(DUMP_DIVIDER);
        let ghost banner = text@;
        let len = self.inner.len();
        for i in 0..len
            invariant
                len == self@.len(),
                self.wf(),
                text@ + spec_entries_text(self@, i as int) == banner + spec_entries_text(
                    self@,
                    0,
                ),
        {
            proof {
                assert(spec_entry_wf(self@[i as int]));
            }
            let ghost before = text@;
            let rendered = render_entry(self.entry(i));
            text.append(rendered.as_str());
            proof {
                assert(spec_entries_text(self@, i as int) == spec_entry_text(self@[i as int])
                    + spec_entries_text(self@, i + 1));
                assert(text@ + spec_entries_text(self@, i + 1) =~= before + spec_entries_text(
                    self@,
                    i as int,
                ));
            }
        }
        proof {
            assert(spec_entries_text(self@, len as int) =~= Seq::<char>::empty());
            assert(text@ =~= banner + spec_entries_text(self@, 0));
        }
        text.append(DUMP_DIVIDER);
        proof {
            assert(text@ =~= spec_print(self@));
        }
        text
    }
}

/// The model of a fresh entry recording one mapping for one user.
pub open spec fn spec_new_record(
    name: Seq<char>,
    virt_start: int,
    phys_start: int,
    num_pages: int,
    attr: AttributeFields,
) -> MappingRecordModel {
    MappingRecordModel {
        users: seq![name],
        phys_start_addr: phys_start,
        virt_start_addr: virt_start,
        num_pages: num_pages,
        attribute_fields: attr,
    }
}

/// Swapping two positions of a sequence leaves its multiset unchanged.
proof fn lemma_swap_preserves_multiset<A>(s: Seq<A>, i: int, j: int)
    requires
        0 <= i < j < s.len(),
    ensures
        s.update(i, s[j]).update(j, s[i]).to_multiset() == s.to_multiset(),
{
    broadcast use vstd::seq_lib::to_multiset_update;
    broadcast use vstd::seq_lib::group_to_multiset_ensures;
    broadcast use vstd::multiset::group_multiset_axioms;
    broadcast use vstd::multiset::group_multiset_properties;

    let s1 = s.update(i, s[j]);
    let s2 = s1.update(j, s[i]);
    assert(s1.to_multiset() == s.to_multiset().insert(s[j]).remove(s[i]));
    assert(s1[j] == s[j]);
    assert(s2.to_multiset() == s1.to_multiset().insert(s[i]).remove(s[j]));
    assert(s.to_multiset().count(s[i]) > 0) by {
        assert(s.contains(s[i]));
    };
    assert(s2.to_multiset() =~= s.to_multiset());
}

} // verus!
