//! Tensor metadata: element type, shape and storage layout, with the
//! validation rules that every constructed metadata value satisfies.
use vstd::prelude::*;
use vstd::arithmetic::mul::lemma_mul_inequality;

verus! {

/// Element type stored in a tensor; it fixes the byte width of one element.
#[derive(Clone, Copy, Debug, PartialEq, Eq, Structural)]
pub enum DType {
    F32,
    F64,
    I32,
    I64,
    U8,
}

/// Memory-order convention over the shape; the cache keeps it but never
/// interprets it.
#[derive(Clone, Copy, Debug, PartialEq, Eq, Structural)]
pub enum StorageLayout {
    RowMajor,
    ColumnMajor,
}

/// Byte width of one element of the given type.
pub open spec fn dtype_size(d: DType) -> nat {
    match d {
        DType::F32 => 4,
        DType::F64 => 8,
        DType::I32 => 4,
        DType::I64 => 8,
        DType::U8 => 1,
    }
}

/// Product of the dimensions of a shape; 1 for the empty shape.
pub open spec fn shape_product(s: Seq<usize>) -> nat
    decreases s.len(),
{
    if s.len() == 0 {
        1
    } else {
        shape_product(s.drop_last()) * (s.last() as nat)
    }
}

/// The running products of a left-to-right fold over the shape all fit in a
/// machine word. This is exactly when an element count can be computed with
/// checked multiplication, dimension by dimension.
pub open spec fn prefix_products_fit(s: Seq<usize>) -> bool {
    forall|i: int| 0 <= i <= s.len() ==> shape_product(s.take(i)) <= usize::MAX
}

/// The total byte size of the metadata is computable without overflow.
pub open spec fn byte_size_fits(m: TensorMetaView) -> bool {
    &&& prefix_products_fit(m.shape)
    &&& shape_product(m.shape) * dtype_size(m.dtype) <= usize::MAX
}

/// A structurally correct metadata value: non-empty shape, no zero
/// dimension, and a total byte size that fits in a machine word.
pub open spec fn meta_valid(m: TensorMetaView) -> bool {
    &&& m.shape.len() > 0
    &&& (forall|i: int| 0 <= i < m.shape.len() ==> m.shape[i] > 0)
    &&& shape_product(m.shape) * dtype_size(m.dtype) <= usize::MAX
}

/// Total byte size implied by a metadata value: element count times element
/// width.
pub open spec fn meta_byte_size(m: TensorMetaView) -> nat {
    shape_product(m.shape) * dtype_size(m.dtype)
}

/// Mathematical image of a `TensorMeta`.
pub struct TensorMetaView {
    pub dtype: DType,
    pub shape: Seq<usize>,
    pub layout: StorageLayout,
}

/// Description of a tensor: element type, shape and storage layout.
/// Immutable after construction; `new` rejects every value that
/// `meta_valid` refuses.
#[derive(Debug)]
pub struct TensorMeta {
    dtype: DType,
    shape: Vec<usize>,
    layout: StorageLayout,
}

impl View for TensorMeta {
    type V = TensorMetaView;

    closed spec fn view(&self) -> TensorMetaView {
        TensorMetaView { dtype: self.dtype, shape: self.shape@, layout: self.layout }
    }
}

/// Extending a prefix of the shape by one dimension multiplies its product
/// by that dimension.
proof fn lemma_shape_product_take_step(s: Seq<usize>, i: int)
    requires
        0 <= i < s.len(),
    ensures
        shape_product(s.take(i + 1)) == shape_product(s.take(i)) * s[i],
{
    assert(s.take(i + 1).drop_last() =~= s.take(i));
    assert(s.take(i + 1).last() == s[i]);
}

/// With no zero dimension, the product of a prefix of the shape never
/// exceeds the product of the whole shape.
proof fn lemma_shape_product_take_le(s: Seq<usize>, i: int)
    requires
        0 <= i <= s.len(),
        forall|k: int| 0 <= k < s.len() ==> s[k] > 0,
    ensures
        shape_product(s.take(i)) <= shape_product(s),
    decreases s.len() - i,
{
    if i == s.len() {
        assert(s.take(i) =~= s);
    } else {
        lemma_shape_product_take_step(s, i);
        lemma_mul_inequality(1, s[i] as int, shape_product(s.take(i)) as int);
        lemma_shape_product_take_le(s, i + 1);
    }
}

impl TensorMeta {
    /// Builds a metadata value, validating it first: the result is `Ok`
    /// exactly on structurally correct inputs.
    pub fn new(dtype: DType, shape: Vec<usize>, layout: StorageLayout) -> (r: Result<
        TensorMeta,
        &'static str,
    >)
        ensures
            r is Ok <==> meta_valid((TensorMetaView { dtype, shape: shape@, layout })),
            r is Ok ==> r->Ok_0@ == (TensorMetaView { dtype, shape: shape@, layout }),
    {
        let tensor_meta = TensorMeta { dtype, shape, layout };
        match tensor_meta.validate() {
            Ok(()) => Ok(tensor_meta),
            Err(e) => Err(e),
        }
    }

    /// Number of elements held by the shape: the product of its dimensions,
    /// computed with checked multiplication. Fails exactly when some running
    /// product overflows.
    pub fn num_elements(&self) -> (r: Result<usize, &'static str>)
        ensures
            r is Ok <==> prefix_products_fit(self@.shape),
            r is Ok ==> r->Ok_0 == shape_product(self@.shape),
    {
        let mut total_elements: usize = 1;
        let mut idx: usize = 0;
        while idx < self.shape.len()
            invariant
                0 <= idx <= self.shape@.len(),
                total_elements == shape_product(self.shape@.take(idx as int)),
                forall|k: int| 0 <= k <= idx ==> shape_product(self.shape@.take(k)) <= usize::MAX,
            decreases self.shape@.len() - idx,
        {
            let dim = self.shape[idx];
            proof {
                lemma_shape_product_take_step(self.shape@, idx as int);
            }
            match total_elements.checked_mul(dim) {
                Some(t) => {
                    total_elements = t;
                },
                None => {
                    return Err("Shape overflow");
                },
            }
            idx = idx + 1;
        }
        proof {
            assert(self.shape@.take(self.shape@.len() as int) =~= self.shape@);
        }
        Ok(total_elements)
    }

    /// Total size in bytes: element count times the byte width of one
    /// element, with overflow reported as an error.
    pub fn total_byte_size(&self) -> (r: Result<usize, &'static str>)
        ensures
            r is Ok <==> byte_size_fits(self@),
            r is Ok ==> r->Ok_0 == meta_byte_size(self@),
    {
        let total_elements = match self.num_elements() {
            Ok(n) => n,
            Err(e) => {
                return Err(e);
            },
        };
        match total_elements.checked_mul(self.dtype.size_bytes()) {
            Some(b) => Ok(b),
            None => Err("tensor byte size overflow"),
        }
    }

    /// Checks that the metadata is structurally correct: non-empty shape,
    /// no zero dimension, and a byte size that fits in a machine word.
    pub fn validate(&self) -> (r: Result<(), &'static str>)
        ensures
            r is Ok <==> meta_valid(self@),
    {
        if self.shape.len() == 0 {
            return Err("Shape cannot be empty");
        }
        let mut idx: usize = 0;
        while idx < self.shape.len()
            invariant
                0 <= idx <= self.shape@.len(),
                forall|k: int| 0 <= k < idx ==> self.shape@[k] > 0,
            decreases self.shape@.len() - idx,
        {
            if self.shape[idx] == 0 {
                return Err("Shape cannot be zero");
            }
            idx = idx + 1;
        }
        proof {
            if meta_valid(self@) {
                assert forall|k: int| 0 <= k <= self@.shape.len() implies shape_product(
                    self@.shape.take(k),
                ) <= usize::MAX by {
                    lemma_shape_product_take_le(self@.shape, k);
                    assert(shape_product(self@.shape.take(k)) <= shape_product(self@.shape));
                    lemma_mul_inequality(
                        1,
                        dtype_size(self@.dtype) as int,
                        shape_product(self@.shape) as int,
                    );
                    assert(shape_product(self@.shape) * 1 <= shape_product(self@.shape)
                        * dtype_size(self@.dtype)) by (nonlinear_arith)
                        requires
                            1 <= dtype_size(self@.dtype),
                    ;
                }
            }
        }
        match self.total_byte_size() {
            Ok(_) => Ok(()),
            Err(e) => Err(e),
        }
    }

    /// Element type of the tensor.
    pub fn dtype(&self) -> (r: &DType)
        ensures
            *r == self@.dtype,
    {
        &self.dtype
    }

    /// Dimensions of the tensor.
    pub fn shape(&self) -> (r: &[usize])
        ensures
            r@ == self@.shape,
    {
        self.shape.as_slice()
    }

    /// Storage layout of the tensor.
    pub fn layout(&self) -> (r: &StorageLayout)
        ensures
            *r == self@.layout,
    {
        &self.layout
    }
}

impl DType {
    /// Byte width of one element of this type.
    pub fn size_bytes(&self) -> (r: usize)
        ensures
            r == dtype_size(*self),
    {
        match self {
            DType::F32 => 4,
            DType::F64 => 8,
            DType::I32 => 4,
            DType::I64 => 8,
            DType::U8 => 1,
        }
    }
}

} // verus!
