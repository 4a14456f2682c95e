//! The PDO layout that a user declares for a sub-device.

use crate::error::Error;
use vstd::prelude::*;

verus! {

/// Most entries that a CoE object with sub-indices can list.
pub const MAX_ENTRIES: usize = 254;

/// One mapped object: index, sub-index and bit width packed into a word,
/// `index << 16 | subindex << 8 | bits`.
#[derive(Clone, Copy, Debug, PartialEq, Eq, Structural)]
pub struct PdoObject(pub u32);

impl PdoObject {
    pub open spec fn spec_new(index: u16, subindex: u8, bits: u8) -> PdoObject {
        PdoObject(((index as u32) << 16) | ((subindex as u32) << 8) | (bits as u32))
    }

    /// The object `index`:`subindex`, `bits` bits wide.
    pub fn new(index: u16, subindex: u8, bits: u8) -> (o: PdoObject)
        ensures
            o == Self::spec_new(index, subindex, bits),
    {
        PdoObject(((index as u32) << 16) | ((subindex as u32) << 8) | (bits as u32))
    }

    /// Bit width of the object: the low eight bits of the word.
    pub open spec fn spec_bits(self) -> u32 {
        self.0 & 0xff
    }

    /// Length of the object in bytes: its bit width, rounded up.
    pub open spec fn spec_len_bytes(self) -> u16 {
        ((self.spec_bits() + 7) / 8) as u16
    }

    pub fn len_bytes(&self) -> (n: u16)
        ensures
            n == self.spec_len_bytes(),
            n <= 32,
    {
        let word = self.0;
        let bits = word & 0xff;
        assert(word & 0xff <= 0xff) by (bit_vector);
        ((bits + 7) / 8) as u16
    }
}

/// The word of an object holds what it was made of.
pub proof fn law_object_word(index: u16, subindex: u8, bits: u8)
    ensures
        PdoObject::spec_new(index, subindex, bits).spec_bits() == bits,
        PdoObject::spec_new(index, subindex, bits).0 >> 16 == index,
        (PdoObject::spec_new(index, subindex, bits).0 >> 8) & 0xff == subindex,
{
    assert((((index as u32) << 16) | ((subindex as u32) << 8) | (bits as u32)) & 0xff == bits as u32)
        by (bit_vector);
    assert((((index as u32) << 16) | ((subindex as u32) << 8) | (bits as u32)) >> 16
        == index as u32) by (bit_vector);
    assert(((((index as u32) << 16) | ((subindex as u32) << 8) | (bits as u32)) >> 8) & 0xff
        == subindex as u32) by (bit_vector);
}

/// Sum of the byte lengths of the first `n` objects.
pub open spec fn objects_len(objects: Seq<PdoObject>, n: int) -> int
    decreases n,
{
    if n <= 0 {
        0
    } else {
        objects_len(objects, n - 1) + objects[n - 1].spec_len_bytes()
    }
}

pub proof fn lemma_objects_len_bound(objects: Seq<PdoObject>, n: int)
    requires
        0 <= n <= objects.len(),
    ensures
        0 <= objects_len(objects, n) <= 32 * n,
    decreases n,
{
    if n > 0 {
        lemma_objects_len_bound(objects, n - 1);
        let word = objects[n - 1].0;
        assert(word & 0xff <= 0xff) by (bit_vector);
    }
}

/// One PDO assignment: the index of a PDO (0x1A00, 0x1600, ...) and the
/// objects mapped into it, at most 254.
pub struct PdoMapping {
    index: u16,
    objects: Vec<PdoObject>,
}

impl PdoMapping {
    #[verifier::type_invariant]
    spec fn inv(self) -> bool {
        self.objects@.len() <= MAX_ENTRIES
    }

    pub closed spec fn spec_index(self) -> u16 {
        self.index
    }

    pub closed spec fn spec_objects(self) -> Seq<PdoObject> {
        self.objects@
    }

    /// The mapping of `objects` into the PDO `index`; more than 254 objects
    /// are refused.
    pub fn new(index: u16, objects: Vec<PdoObject>) -> (r: Result<PdoMapping, Error>)
        ensures
            objects@.len() > MAX_ENTRIES ==> (r matches Err(e) && e == Error::Capacity),
            objects@.len() <= MAX_ENTRIES ==> (r matches Ok(m) && m.spec_index() == index
                && m.spec_objects() == objects@),
    {
        if objects.len() > MAX_ENTRIES {
            Err(Error::Capacity)
        } else {
            Ok(PdoMapping { index, objects })
        }
    }

    pub fn index(&self) -> (i: u16)
        ensures
            i == self.spec_index(),
    {
        self.index
    }

    /// Number of objects mapped.
    pub fn count(&self) -> (n: u8)
        ensures
            n == self.spec_objects().len(),
            self.spec_objects().len() <= MAX_ENTRIES,
    {
        proof {
            use_type_invariant(self);
        }
        self.objects.len() as u8
    }

    /// The object at position `at`.
    pub fn object(&self, at: usize) -> (r: Option<PdoObject>)
        ensures
            r == (if at < self.spec_objects().len() {
                Some(self.spec_objects()[at as int])
            } else {
                None
            }),
    {
        if at < self.objects.len() {
            Some(self.objects[at])
        } else {
            None
        }
    }

    /// Length of the PDO in bytes: the sum of the lengths of its objects.
    pub open spec fn spec_len_bytes(self) -> int {
        objects_len(self.spec_objects(), self.spec_objects().len() as int)
    }

    pub fn len_bytes(&self) -> (n: u16)
        ensures
            n == self.spec_len_bytes(),
    {
        proof {
            use_type_invariant(self);
        }
        let count = self.objects.len();
        let mut sum: u16 = 0;
        let mut i: usize = 0;
        while i < count
            invariant
                i <= count,
                count == self.objects@.len(),
                count <= MAX_ENTRIES,
                sum == objects_len(self.objects@, i as int),
                sum <= 32 * i,
            decreases count - i,
        {
            sum = sum + self.objects[i].len_bytes();
            i = i + 1;
        }
        sum
    }
}

/// The PDO layout of one sub-device: the PDOs that carry its inputs and those
/// that carry its outputs, at most 254 of each.
pub struct PdoConfig {
    inputs: Vec<PdoMapping>,
    outputs: Vec<PdoMapping>,
}

impl PdoConfig {
    #[verifier::type_invariant]
    spec fn inv(self) -> bool {
        self.inputs@.len() <= MAX_ENTRIES && self.outputs@.len() <= MAX_ENTRIES
    }

    pub closed spec fn spec_inputs(self) -> Seq<PdoMapping> {
        self.inputs@
    }

    pub closed spec fn spec_outputs(self) -> Seq<PdoMapping> {
        self.outputs@
    }

    /// The PDOs of one direction.
    pub open spec fn spec_direction(self, output: bool) -> Seq<PdoMapping> {
        if output {
            self.spec_outputs()
        } else {
            self.spec_inputs()
        }
    }

    /// The layout with the given PDOs; more than 254 in one direction are
    /// refused.
    pub fn new(inputs: Vec<PdoMapping>, outputs: Vec<PdoMapping>) -> (r: Result<PdoConfig, Error>)
        ensures
            inputs@.len() > MAX_ENTRIES || outputs@.len() > MAX_ENTRIES ==> (r matches Err(e)
                && e == Error::Capacity),
            inputs@.len() <= MAX_ENTRIES && outputs@.len() <= MAX_ENTRIES ==> (r matches Ok(c)
                && c.spec_inputs() == inputs@ && c.spec_outputs() == outputs@),
    {
        if inputs.len() > MAX_ENTRIES || outputs.len() > MAX_ENTRIES {
            Err(Error::Capacity)
        } else {
            Ok(PdoConfig { inputs, outputs })
        }
    }

    /// Number of PDOs of one direction.
    pub fn count(&self, output: bool) -> (n: u8)
        ensures
            n == self.spec_direction(output).len(),
            self.spec_direction(output).len() <= MAX_ENTRIES,
    {
        proof {
            use_type_invariant(self);
        }
        if output {
            self.outputs.len() as u8
        } else {
            self.inputs.len() as u8
        }
    }

    /// The PDO at position `at` of one direction.
    pub fn mapping(&self, output: bool, at: usize) -> (r: Option<&PdoMapping>)
        ensures
            r == (if at < self.spec_direction(output).len() {
                Some(&self.spec_direction(output)[at as int])
            } else {
                None
            }),
    {
        if output {
            if at < self.outputs.len() {
                Some(&self.outputs[at])
            } else {
                None
            }
        } else {
            if at < self.inputs.len() {
                Some(&self.inputs[at])
            } else {
                None
            }
        }
    }
}

} // verus!
