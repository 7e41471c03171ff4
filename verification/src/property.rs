use vstd::prelude::*;

verus! {

/// Whether `name` is the longest prefix of `raw` that holds no NUL byte:
/// exactly the bytes a C string embedded in a fixed-size array stands for.
pub open spec fn is_name_of(name: Seq<u8>, raw: Seq<u8>) -> bool {
    &&& name.len() <= raw.len()
    &&& (forall|i: int| 0 <= i < name.len() ==> name[i] == raw[i] && raw[i] != 0)
    &&& (name.len() < raw.len() ==> raw[name.len() as int] == 0)
}

/// Copies the bytes of `raw` that stand before its first NUL byte, or all of
/// `raw` where it holds none. The kernel hands a property's name over as a
/// fixed-size, NUL-padded byte array; this recovers the name proper.
pub fn name_before_nul(raw: &Vec<u8>) -> (r: Vec<u8>)
    ensures
        is_name_of(r@, raw@),
{
    let mut name: Vec<u8> = Vec::new();
    let mut i: usize = 0;
    while i < raw.len()
        invariant
            i <= raw@.len(),
            name@.len() == i,
            forall|j: int| 0 <= j < i ==> name@[j] == raw@[j] && raw@[j] != 0,
        decreases raw@.len() - i,
    {
        let b = raw[i];
        if b == 0 {
            return name;
        }
        name.push(b);
        i = i + 1;
    }
    name
}

/// A property as the kernel reports it: a named, typed attribute of a KMS
/// object, here with its name and the counts of its value, enum and blob
/// entries.
///
/// The caller copies the fields out of the kernel's property query before
/// the reply is released; the name arrives as the raw NUL-padded array.
pub struct Property {
    pub prop_id: u32,
    /// The property's name: the bytes before the first NUL of the array the
    /// kernel filled.
    pub name: Vec<u8>,
    pub count_values: i32,
    pub count_enums: i32,
    pub count_blobs: i32,
}

impl Property {
    /// Builds a property from the fields of a kernel property query, taking
    /// the name as the raw NUL-padded byte array.
    pub fn new(
        prop_id: u32,
        raw_name: &Vec<u8>,
        count_values: i32,
        count_enums: i32,
        count_blobs: i32,
    ) -> (r: Property)
        ensures
            r.prop_id == prop_id,
            is_name_of(r.name@, raw_name@),
            r.count_values == count_values,
            r.count_enums == count_enums,
            r.count_blobs == count_blobs,
    {
        Property {
            prop_id,
            name: name_before_nul(raw_name),
            count_values,
            count_enums,
            count_blobs,
        }
    }
}

} // verus!
