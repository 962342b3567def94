use vstd::prelude::*;
use vstd::string::StringSliceAdditionalSpecFns;
use crate::error::{InterfaceErrorKind, ProcessErrorKind};

verus! {

/// The bytes of `name` followed by a terminating NUL, as C functions read names.
pub open spec fn c_name(name: &str) -> Seq<u8> {
    name.spec_bytes().push(0u8)
}

/// The bytes of `name` with a NUL appended, ready to hand to a function that
/// looks a module, an export or an interface up by a C string.
pub fn nul_terminated(name: &str) -> (r: Vec<u8>)
    ensures
        r@ == c_name(name),
        r@.len() == name.spec_bytes().len() + 1,
        forall|k: int| 0 <= k < name.spec_bytes().len() ==> #[trigger] r@[k] == name.spec_bytes()[k],
        r@.last() == 0u8,
{
    let bytes = name.as_bytes();
    let len = bytes.len();
    let mut out: Vec<u8> = Vec::new();
    let mut i: usize = 0;
    while i < len
        invariant
            len == bytes@.len(),
            bytes@ == name.spec_bytes(),
            i <= len,
            out@ == bytes@.take(i as int),
        decreases len - i,
    {
        out.push(bytes[i]);
        i += 1;
        assert(out@ == bytes@.take(i as int));
    }
    assert(bytes@.take(len as int) == bytes@);
    out.push(0u8);
    out
}

/// A C name is the name's bytes unchanged, one more byte in length, ending in
/// the terminating NUL.
pub proof fn lemma_c_name_keeps_bytes(name: &str)
    ensures
        c_name(name).len() == name.spec_bytes().len() + 1,
        forall|k: int|
            0 <= k < name.spec_bytes().len() ==> #[trigger] c_name(name)[k]
                == name.spec_bytes()[k],
        c_name(name)[name.spec_bytes().len() as int] == 0u8,
{
}

/// A negative index read as a slot number lands `usize::MAX + 1` higher, and
/// every index lands in the range of `usize`: `wrapped_index` is the cast to
/// `usize`.
pub proof fn lemma_wrapped_index_is_cast(index: isize)
    ensures
        0 <= wrapped_index(index) <= usize::MAX,
        index >= 0 ==> wrapped_index(index) == index,
        index < 0 ==> wrapped_index(index) == index + usize::MAX + 1,
{
}

/// A non-negative index is accepted exactly up to the method count, and a
/// negative one is refused by any table smaller than half the address range.
pub proof fn lemma_vfunc_index_bounds(index: isize, methods: usize)
    ensures
        index >= 0 ==> (wrapped_index(index) <= methods <==> index <= methods),
        index < 0 && methods <= isize::MAX ==> wrapped_index(index) > methods,
{
}

/// `index` read as an unsigned slot number, as a cast to `usize` reads it: a
/// negative index wraps round to the top of the range.
pub open spec fn wrapped_index(index: isize) -> int {
    if index >= 0 {
        index as int
    } else {
        index + usize::MAX + 1
    }
}

/// Checks a virtual-method index against the number of methods of a table:
/// the index is accepted when, read as an unsigned number, it is at most
/// `methods`; otherwise the error names the index.
pub fn check_vfunc_index(index: isize, methods: usize) -> (r: Result<(), InterfaceErrorKind>)
    ensures
        r is Ok <==> wrapped_index(index) <= methods,
        r matches Err(e) ==> e == InterfaceErrorKind::InvalidVFuncIndex(index),
{
    let slot: usize = if index >= 0 {
        index as usize
    } else {
        usize::MAX - ((-(index + 1)) as usize)
    };
    if slot > methods {
        Err(InterfaceErrorKind::InvalidVFuncIndex(index))
    } else {
        Ok(())
    }
}

/// The outcome of looking a module up by name: the module's handle, or, where
/// the lookup gave the null handle, the error that names the module.
pub fn module_or_error(module_name: &str, handle: usize) -> (r: Result<usize, ProcessErrorKind>)
    ensures
        handle != 0 ==> r == Ok::<usize, ProcessErrorKind>(handle),
        handle == 0 ==> (r matches Err(ProcessErrorKind::UnknownModule(s)) && s@ == module_name@),
{
    if handle == 0 {
        Err(ProcessErrorKind::UnknownModule(module_name.to_owned()))
    } else {
        Ok(handle)
    }
}

/// The outcome of looking an exported function up by name: its address, or,
/// where the lookup gave the null address, the error that names the export.
pub fn export_or_error(export_name: &str, address: usize) -> (r: Result<usize, ProcessErrorKind>)
    ensures
        address != 0 ==> r == Ok::<usize, ProcessErrorKind>(address),
        address == 0 ==> (r matches Err(ProcessErrorKind::UnknownExport(s)) && s@ == export_name@),
{
    if address == 0 {
        Err(ProcessErrorKind::UnknownExport(export_name.to_owned()))
    } else {
        Ok(address)
    }
}

/// The outcome of asking a module's interface factory for an interface: its
/// address, or, where the factory gave the null address, the error that names
/// the interface.
pub fn interface_or_error(interface_name: &str, address: usize) -> (r: Result<
    usize,
    ProcessErrorKind,
>)
    ensures
        address != 0 ==> r == Ok::<usize, ProcessErrorKind>(address),
        address == 0 ==> (r matches Err(ProcessErrorKind::UnknownInterface(s)) && s@
            == interface_name@),
{
    if address == 0 {
        Err(ProcessErrorKind::UnknownInterface(interface_name.to_owned()))
    } else {
        Ok(address)
    }
}

/// The position of the first null entry of a virtual table, which is the number
/// of methods before it.
pub open spec fn is_method_count(entries: Seq<usize>, count: int) -> bool {
    &&& 0 <= count < entries.len()
    &&& entries[count] == 0
    &&& forall|k: int| 0 <= k < count ==> #[trigger] entries[k] != 0
}

/// A method count points at a null entry with only non-null entries before it,
/// so a table has at most one method count: the position of its first null.
pub proof fn lemma_method_count_is_first_null(entries: Seq<usize>, a: int, b: int)
    requires
        is_method_count(entries, a),
        is_method_count(entries, b),
    ensures
        a == b,
        entries[a] == 0,
        forall|k: int| 0 <= k < a ==> entries[k] != 0,
{
    if a < b {
        assert(entries[a] != 0);
    } else if b < a {
        assert(entries[b] != 0);
    }
}

/// Counts the methods of a virtual table: the entries before the first null one.
/// `None` where the entries hold no null.
pub fn count_methods(entries: &[usize]) -> (r: Option<usize>)
    ensures
        r matches Some(n) ==> is_method_count(entries@, n as int),
        r is None ==> forall|k: int| 0 <= k < entries@.len() ==> #[trigger] entries@[k] != 0,
{
    let len = entries.len();
    let mut i: usize = 0;
    while i < len
        invariant
            len == entries@.len(),
            i <= len,
            forall|k: int| 0 <= k < i ==> #[trigger] entries@[k] != 0,
        decreases len - i,
    {
        if entries[i] == 0 {
            return Some(i);
        }
        i += 1;
    }
    None
}

/// A private copy of an object's virtual table whose slots can be pointed at
/// other functions, beside the entries of the table it was copied from. Both
/// hold the methods only, without the terminating null entry.
#[derive(Debug)]
pub struct HookTable {
    original: Vec<usize>,
    own: Vec<usize>,
}

impl HookTable {
    /// The entries of the table that was copied.
    pub closed spec fn original_entries(&self) -> Seq<usize> {
        self.original@
    }

    /// The entries of the private copy, hooks included.
    pub closed spec fn own_entries(&self) -> Seq<usize> {
        self.own@
    }

    /// The number of methods, each of which has an entry.
    pub open spec fn method_count(&self) -> int {
        self.original_entries().len() as int
    }

    /// Both tables have the same length, no more than a slice can hold.
    pub open spec fn wf(&self) -> bool {
        &&& self.original_entries().len() <= isize::MAX
        &&& self.own_entries().len() == self.original_entries().len()
    }

    /// Copies a virtual table: the entries before the first null one. `None`
    /// where the entries hold no null.
    pub fn new(entries: &[usize]) -> (r: Option<HookTable>)
        requires
            entries@.len() <= isize::MAX,
        ensures
            r is Some <==> exists|k: int| 0 <= k < entries@.len() && #[trigger] entries@[k] == 0,
            r matches Some(t) ==> {
                &&& t.wf()
                &&& is_method_count(entries@, t.method_count())
                &&& t.original_entries() == entries@.take(t.method_count())
                &&& t.own_entries() == t.original_entries()
            },
    {
        match count_methods(entries) {
            None => None,
            Some(n) => {
                let mut original: Vec<usize> = Vec::new();
                let mut i: usize = 0;
                while i < n
                    invariant
                        is_method_count(entries@, n as int),
                        i <= n,
                        original@ == entries@.take(i as int),
                    decreases n - i,
                {
                    original.push(entries[i]);
                    i += 1;
                    assert(original@ == entries@.take(i as int));
                }
                let own = original.clone();
                assert(own@ == original@);
                Some(HookTable { original, own })
            },
        }
    }

    /// The number of methods of the table.
    pub fn methods(&self) -> (r: usize)
        ensures
            r == self.method_count(),
    {
        self.original.len()
    }

    /// The entries of the table that was copied.
    pub fn original_table(&self) -> (r: &[usize])
        ensures
            r@ == self.original_entries(),
    {
        self.original.as_slice()
    }

    /// The entries of the private copy, to be installed in place of the original.
    pub fn own_table(&self) -> (r: &[usize])
        ensures
            r@ == self.own_entries(),
    {
        self.own.as_slice()
    }

    /// Points slot `index` of the private copy at `func`. The index is checked as
    /// an interface checks a method index; a refused index leaves the table as it
    /// was. The copied table never changes. The one index that the check accepts
    /// without a slot in the copy, the method count itself, is left out.
    pub fn hook_vfunc(&mut self, func: usize, index: isize) -> (r: Result<(), InterfaceErrorKind>)
        requires
            old(self).wf(),
            wrapped_index(index) != old(self).method_count(),
        ensures
            final(self).wf(),
            final(self).original_entries() == old(self).original_entries(),
            r is Ok <==> wrapped_index(index) <= old(self).method_count(),
            r is Ok ==> 0 <= index && final(self).own_entries() == old(self).own_entries().update(
                index as int,
                func,
            ),
            r matches Err(e) ==> e == InterfaceErrorKind::InvalidVFuncIndex(index)
                && final(self).own_entries() == old(self).own_entries(),
    {
        let methods = self.original.len();
        match check_vfunc_index(index, methods) {
            Err(e) => Err(e),
            Ok(()) => {
                let slot = index as usize;
                self.own.set(slot, func);
                Ok(())
            },
        }
    }
}

/// Hooking a slot and then pointing it back at the copied entry restores the
/// private copy, so a table whose copy matched the original matches it again.
pub proof fn lemma_unhook_restores(own: Seq<usize>, original: Seq<usize>, slot: int, func: usize)
    requires
        own == original,
        0 <= slot < original.len(),
    ensures
        own.update(slot, func).update(slot, original[slot]) == original,
{
    assert(own.update(slot, func).update(slot, original[slot]) =~= original);
}

/// Hooks at two different slots do not interfere: applying them in either order
/// gives the same table.
pub proof fn lemma_hooks_commute(own: Seq<usize>, i: int, f: usize, j: int, g: usize)
    requires
        0 <= i < own.len(),
        0 <= j < own.len(),
        i != j,
    ensures
        own.update(i, f).update(j, g) == own.update(j, g).update(i, f),
{
    assert(own.update(i, f).update(j, g) =~= own.update(j, g).update(i, f));
}

} // verus!
