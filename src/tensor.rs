use vstd::prelude::*;

use crate::context::{Context, DeviceType};
use crate::error::{MXError, MXResult};

verus! {

/// Staged construction of a tensor: its shape, its device, whether storage
/// may be allocated lazily, and the number of host values it is filled from.
pub struct NDArrayBuilder {
    pub shape: Vec<u32>,
    pub context: Context,
    pub delay_alloc: bool,
    pub data_len: Option<usize>,
}

/// The arguments of the engine's create call, and of the host copy that
/// follows it when the tensor is filled from data.
pub struct CreateArgs {
    pub shape: Vec<u32>,
    pub ndim: u32,
    pub dev_type: i32,
    pub dev_id: i32,
    pub delay_alloc: bool,
    pub copy_len: Option<usize>,
}

fn copy_dims(dims: &Vec<u32>) -> (r: Vec<u32>)
    ensures
        r@ == dims@,
{
    let mut r: Vec<u32> = Vec::with_capacity(dims.len());
    let mut i: usize = 0;
    while i < dims.len()
        invariant
            0 <= i <= dims.len(),
            r@ == dims@.take(i as int),
        decreases dims.len() - i,
    {
        r.push(dims[i]);
        i = i + 1;
        assert(r@ =~= dims@.take(i as int));
    }
    assert(dims@.take(dims.len() as int) =~= dims@);
    r
}

impl NDArrayBuilder {
    /// A builder of a tensor of the given shape, on the first CPU, with lazy
    /// allocation.
    pub fn new(shape: Vec<u32>) -> (r: Self)
        ensures
            r.shape@ == shape@,
            r.context == (Context { device_type: DeviceType::CPU, device_id: 0 }),
            r.delay_alloc,
            r.data_len is None,
    {
        NDArrayBuilder { shape: shape, context: Context::default(), delay_alloc: true, data_len: None }
    }

    /// A builder of a one-dimensional tensor to be filled from `data_len`
    /// host values.
    pub fn from(data_len: usize) -> (r: Self)
        requires
            data_len <= u32::MAX,
        ensures
            r.shape@ == seq![data_len as u32],
            r.context == (Context { device_type: DeviceType::CPU, device_id: 0 }),
            r.delay_alloc,
            r.data_len == Some(data_len),
    {
        let mut shape: Vec<u32> = Vec::new();
        shape.push(data_len as u32);
        NDArrayBuilder { shape: shape, context: Context::default(), delay_alloc: true, data_len: Some(data_len) }
    }

    pub fn context(self, context: Context) -> (r: Self)
        ensures
            r.shape@ == self.shape@,
            r.context == context,
            r.delay_alloc == self.delay_alloc,
            r.data_len == self.data_len,
    {
        NDArrayBuilder { context: context, ..self }
    }

    pub fn delay_alloc(self, delay: bool) -> (r: Self)
        ensures
            r.shape@ == self.shape@,
            r.context == self.context,
            r.delay_alloc == delay,
            r.data_len == self.data_len,
    {
        NDArrayBuilder { delay_alloc: delay, ..self }
    }

    /// What the engine is asked for. Allocation is deferred only when no
    /// data is to be copied in; a rank or device index that the engine's
    /// integer types cannot carry is refused.
    pub fn create_args(&self) -> (r: MXResult<CreateArgs>)
        ensures
            r is Ok <==> self.shape@.len() <= u32::MAX && i32::MIN <= self.context.device_id
                <= i32::MAX,
            r matches Err(e) ==> e is OutOfRange,
            r matches Ok(a) ==> {
                &&& a.shape@ == self.shape@
                &&& a.ndim == self.shape@.len()
                &&& a.dev_type == self.context.device_type.spec_code()
                &&& a.dev_id == self.context.device_id
                &&& a.delay_alloc == (self.data_len is None && self.delay_alloc)
                &&& a.copy_len == self.data_len
            },
    {
        if self.shape.len() > u32::MAX as usize {
            return Err(MXError::OutOfRange);
        }
        let dev_id = match self.context.device_id_code() {
            Some(v) => v,
            None => {
                return Err(MXError::OutOfRange);
            },
        };
        Ok(
            CreateArgs {
                shape: copy_dims(&self.shape),
                ndim: self.shape.len() as u32,
                dev_type: self.context.device_type.code(),
                dev_id: dev_id,
                delay_alloc: self.data_len.is_none() && self.delay_alloc,
                copy_len: self.data_len,
            },
        )
    }
}

/// A load returned names, but not one per tensor.
pub open spec fn names_mismatch(n_arrays: nat, n_names: nat, with_names: bool) -> bool {
    with_names && n_names > 0 && n_names != n_arrays
}

/// A load returned one name per tensor, and names were asked for.
pub open spec fn names_kept(n_arrays: nat, n_names: nat, with_names: bool) -> bool {
    with_names && n_names > 0 && n_names == n_arrays
}

/// Names and items paired up position by position.
pub open spec fn zip_named<T>(names: Seq<String>, items: Seq<T>) -> Seq<(String, T)> {
    Seq::new(items.len(), |i: int| (names[i], items[i]))
}

pub open spec fn names_of<T>(entries: Seq<(String, T)>) -> Seq<String> {
    entries.map_values(|e: (String, T)| e.0)
}

pub open spec fn items_of<T>(entries: Seq<(String, T)>) -> Seq<T> {
    entries.map_values(|e: (String, T)| e.1)
}

/// What a bulk load yields from the tensors and names that the engine
/// returned: the tensors in order, with the names when they were asked for
/// and present. Names of another count than the tensors are an error.
pub fn pair_loaded<T>(arrays: Vec<T>, names: Vec<String>, with_names: bool) -> (r: MXResult<
    (Vec<T>, Option<Vec<String>>),
>)
    ensures
        names_mismatch(arrays@.len(), names@.len(), with_names) ==> r matches Err(
            MXError::NamesMismatch,
        ),
        names_kept(arrays@.len(), names@.len(), with_names) ==> (r matches Ok((a, Some(n))) && a@
            == arrays@ && n@ == names@),
        !names_mismatch(arrays@.len(), names@.len(), with_names) && !names_kept(
            arrays@.len(),
            names@.len(),
            with_names,
        ) ==> (r matches Ok((a, None)) && a@ == arrays@),
{
    if with_names && names.len() > 0 {
        if names.len() != arrays.len() {
            return Err(MXError::NamesMismatch);
        }
        Ok((arrays, Some(names)))
    } else {
        Ok((arrays, None))
    }
}

/// The named entries of a load: each name with the tensor at its position.
/// A load without names cannot be read as named entries.
pub fn into_named<T>(arrays: Vec<T>, names: Option<Vec<String>>) -> (r: MXResult<Vec<(String, T)>>)
    ensures
        names is None ==> r matches Err(MXError::MissingNames),
        names matches Some(n) ==> (n@.len() != arrays@.len() ==> r matches Err(
            MXError::NamesMismatch,
        )),
        names matches Some(n) ==> (n@.len() == arrays@.len() ==> (r matches Ok(es) && es@
            == zip_named(n@, arrays@))),
{
    let mut names = match names {
        Some(n) => n,
        None => {
            return Err(MXError::MissingNames);
        },
    };
    if names.len() != arrays.len() {
        return Err(MXError::NamesMismatch);
    }
    let mut arrays = arrays;
    let ghost all_names = names@;
    let ghost all_arrays = arrays@;
    let ghost total = arrays@.len();
    let mut entries: Vec<(String, T)> = Vec::new();
    while arrays.len() > 0
        invariant
            names@.len() == arrays@.len(),
            all_names.len() == total,
            all_arrays.len() == total,
            entries@.len() + arrays@.len() == total,
            names@ == all_names.skip(entries@.len() as int),
            arrays@ == all_arrays.skip(entries@.len() as int),
            entries@ == zip_named(all_names, all_arrays).take(entries@.len() as int),
        decreases arrays@.len(),
    {
        let ghost done = entries@.len() as int;
        let name = names.remove(0);
        let item = arrays.remove(0);
        entries.push((name, item));
        assert(names@ =~= all_names.skip(done + 1));
        assert(arrays@ =~= all_arrays.skip(done + 1));
        assert(entries@ =~= zip_named(all_names, all_arrays).take(done + 1));
    }
    assert(entries@ =~= zip_named(all_names, all_arrays));
    Ok(entries)
}

/// Named entries split into parallel sequences of names and of items, as
/// the engine's save call takes them.
pub fn split_named<T>(entries: Vec<(String, T)>) -> (r: (Vec<String>, Vec<T>))
    ensures
        r.0@ == names_of(entries@),
        r.1@ == items_of(entries@),
{
    let mut entries = entries;
    let ghost all = entries@;
    let mut names: Vec<String> = Vec::new();
    let mut items: Vec<T> = Vec::new();
    while entries.len() > 0
        invariant
            names@.len() == items@.len(),
            names@.len() + entries@.len() == all.len(),
            entries@ == all.skip(names@.len() as int),
            names@ == names_of(all).take(names@.len() as int),
            items@ == items_of(all).take(items@.len() as int),
        decreases entries@.len(),
    {
        let ghost done = names@.len() as int;
        let (name, item) = entries.remove(0);
        names.push(name);
        items.push(item);
        assert(entries@ =~= all.skip(done + 1));
        assert(names@ =~= names_of(all).take(done + 1));
        assert(items@ =~= items_of(all).take(done + 1));
    }
    assert(names@ =~= names_of(all));
    assert(items@ =~= items_of(all));
    (names, items)
}

/// Saving named entries and loading them back with names gives the same
/// entries, in the same order, whenever there is at least one.
pub proof fn lemma_named_round_trip<T>(entries: Seq<(String, T)>)
    requires
        entries.len() > 0,
    ensures
        names_kept(items_of(entries).len(), names_of(entries).len(), true),
        zip_named(names_of(entries), items_of(entries)) == entries,
{
    assert(zip_named(names_of(entries), items_of(entries)) =~= entries);
}

/// A load that asks for no names, or reads a file saved without them,
/// yields the tensors alone, in the order the engine returned them; read as
/// named entries it fails for want of names.
pub proof fn lemma_unnamed_load(n_arrays: nat, n_names: nat, with_names: bool)
    requires
        !with_names || n_names == 0,
    ensures
        !names_mismatch(n_arrays, n_names, with_names),
        !names_kept(n_arrays, n_names, with_names),
{
}

} // verus!
