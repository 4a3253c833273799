use vstd::prelude::*;

verus! {

/// Bytes in one `f32` component of vertex data.
pub const FLOAT_BYTES: usize = 4;

/// Largest number of components per vertex whose stride, in bytes, still
/// fits the `i32` that `glVertexAttribPointer` takes.
pub const MAX_VERTEX_COMPONENTS: usize = 536870911;

/// The sum of the component counts in `sizes`.
pub open spec fn total_components(sizes: Seq<i32>) -> int
    decreases sizes.len(),
{
    if sizes.len() == 0 {
        0
    } else {
        total_components(sizes.drop_last()) + sizes.last()
    }
}

/// A component count that `glVertexAttribPointer` accepts.
pub open spec fn valid_size(size: i32) -> bool {
    1 <= size <= 4
}

pub open spec fn valid_sizes(sizes: Seq<i32>) -> bool {
    forall|i: int| 0 <= i < sizes.len() ==> valid_size(#[trigger] sizes[i])
}

/// The stride in bytes of interleaved vertices laid out as `sizes`.
pub open spec fn stride_of(sizes: Seq<i32>) -> int {
    FLOAT_BYTES * total_components(sizes)
}

/// The byte offset of attribute `index` within one vertex.
pub open spec fn offset_of(sizes: Seq<i32>, index: int) -> int {
    FLOAT_BYTES * total_components(sizes.subrange(0, index))
}

#[derive(Debug, Clone, Copy, PartialEq, Eq, Structural)]
pub enum LayoutError {
    /// The attribute at this position has a component count outside `1..=4`.
    InvalidSize { index: usize },
    /// The stride in bytes does not fit an `i32`.
    StrideOverflow,
    /// The vertex data does not hold a whole number of vertices.
    PartialVertex,
    /// The vertex count does not fit an `i32`.
    CountOverflow,
    /// The size of the vertex data in bytes does not fit an `isize`.
    BufferOverflow,
}

/// The arguments of one `glVertexAttribPointer` call for float data.
#[derive(Debug, Clone, Copy, PartialEq, Eq, Structural)]
pub struct AttribPointer {
    pub index: u32,
    pub size: i32,
    pub stride: i32,
    pub offset: usize,
}

/// Interleaved float vertex attributes, each given by its component count,
/// in the order they follow one another inside a vertex.
pub struct VertexLayout {
    sizes: Vec<i32>,
}

impl View for VertexLayout {
    type V = Seq<i32>;

    closed spec fn view(&self) -> Seq<i32> {
        self.sizes@
    }
}

proof fn lemma_total_components_nonneg(sizes: Seq<i32>)
    requires
        valid_sizes(sizes),
    ensures
        total_components(sizes) >= sizes.len(),
    decreases sizes.len(),
{
    if sizes.len() > 0 {
        lemma_total_components_nonneg(sizes.drop_last());
    }
}

/// Every prefix of a layout has no more components than the whole.
proof fn lemma_prefix_components(sizes: Seq<i32>, i: int)
    requires
        valid_sizes(sizes),
        0 <= i <= sizes.len(),
    ensures
        total_components(sizes.subrange(0, i)) <= total_components(sizes),
    decreases sizes.len(),
{
    if i < sizes.len() {
        let init = sizes.drop_last();
        assert(init.subrange(0, i) =~= sizes.subrange(0, i));
        lemma_prefix_components(init, i);
    } else {
        assert(sizes.subrange(0, i) =~= sizes);
    }
}

proof fn lemma_extend_prefix(sizes: Seq<i32>, i: int)
    requires
        0 <= i < sizes.len(),
    ensures
        total_components(sizes.subrange(0, i + 1)) == total_components(sizes.subrange(0, i))
            + sizes[i],
{
    assert(sizes.subrange(0, i + 1).drop_last() =~= sizes.subrange(0, i));
}

impl VertexLayout {
    pub open spec fn wf(&self) -> bool {
        valid_sizes(self@)
    }

    /// A layout of attributes with the given component counts, in order;
    /// the first count outside `1..=4` is refused.
    pub fn new(sizes: Vec<i32>) -> (r: Result<VertexLayout, LayoutError>)
        ensures
            valid_sizes(sizes@) <==> r is Ok,
            r matches Ok(l) ==> l@ == sizes@ && l.wf(),
            r matches Err(e) ==> (e matches LayoutError::InvalidSize { index } && index
                < sizes@.len() && !valid_size(sizes@[index as int]) && valid_sizes(
                sizes@.subrange(0, index as int),
            )),
    {
        let mut i: usize = 0;
        while i < sizes.len()
            invariant
                i <= sizes@.len(),
                valid_sizes(sizes@.subrange(0, i as int)),
            decreases sizes@.len() - i,
        {
            let s = sizes[i];
            if s < 1 || s > 4 {
                return Err(LayoutError::InvalidSize { index: i });
            }
            assert(sizes@.subrange(0, i + 1) =~= sizes@.subrange(0, i as int).push(s));
            i = i + 1;
        }
        assert(sizes@.subrange(0, i as int) =~= sizes@);
        Ok(VertexLayout { sizes })
    }

    /// The component count of each attribute, in order.
    pub fn sizes(&self) -> (r: &Vec<i32>)
        ensures
            r@ == self@,
    {
        &self.sizes
    }

    /// The number of floats in one vertex, if its stride fits an `i32`.
    pub fn components_per_vertex(&self) -> (r: Result<usize, LayoutError>)
        requires
            self.wf(),
        ensures
            r is Ok <==> stride_of(self@) <= i32::MAX,
            r matches Ok(n) ==> n == total_components(self@),
            r matches Err(e) ==> e == LayoutError::StrideOverflow,
    {
        let mut total: usize = 0;
        let mut i: usize = 0;
        while i < self.sizes.len()
            invariant
                self.wf(),
                i <= self@.len(),
                total == total_components(self@.subrange(0, i as int)),
                total <= MAX_VERTEX_COMPONENTS,
            decreases self@.len() - i,
        {
            proof {
                lemma_extend_prefix(self@, i as int);
            }
            let next = total + self.sizes[i] as usize;
            if next > MAX_VERTEX_COMPONENTS {
                proof {
                    lemma_prefix_components(self@, i + 1);
                }
                return Err(LayoutError::StrideOverflow);
            }
            total = next;
            i = i + 1;
        }
        assert(self@.subrange(0, i as int) =~= self@);
        Ok(total)
    }
    /// The arguments of the `glVertexAttribPointer` call for each attribute,
    /// in order: its position, its component count, the stride of a whole
    /// vertex and its own byte offset within the vertex.
    pub fn attrib_pointers(&self) -> (r: Result<Vec<AttribPointer>, LayoutError>)
        requires
            self.wf(),
        ensures
            r is Ok <==> stride_of(self@) <= i32::MAX,
            r matches Ok(v) ==> v@.len() == self@.len() && forall|i: int|
                0 <= i < v@.len() ==> (#[trigger] v@[i]).index == i && v@[i].size == self@[i]
                    && v@[i].stride == stride_of(self@) && v@[i].offset == offset_of(self@, i),
            r matches Err(e) ==> e == LayoutError::StrideOverflow,
    {
        let total = match self.components_per_vertex() {
            Ok(n) => n,
            Err(e) => return Err(e),
        };
        let stride = (total * FLOAT_BYTES) as i32;
        proof {
            lemma_total_components_nonneg(self@);
        }
        let mut out: Vec<AttribPointer> = Vec::new();
        let mut before: usize = 0;
        let mut i: usize = 0;
        while i < self.sizes.len()
            invariant
                self.wf(),
                i <= self@.len(),
                total == total_components(self@),
                stride == stride_of(self@),
                stride_of(self@) <= i32::MAX,
                self@.len() <= u32::MAX,
                before == total_components(self@.subrange(0, i as int)),
                out@.len() == i,
                forall|k: int|
                    0 <= k < i ==> (#[trigger] out@[k]).index == k && out@[k].size == self@[k]
                        && out@[k].stride == stride_of(self@) && out@[k].offset == offset_of(
                        self@,
                        k,
                    ),
            decreases self@.len() - i,
        {
            proof {
                lemma_prefix_components(self@, i as int);
                lemma_extend_prefix(self@, i as int);
            }
            out.push(
                AttribPointer {
                    index: i as u32,
                    size: self.sizes[i],
                    stride,
                    offset: before * FLOAT_BYTES,
                },
            );
            before = before + self.sizes[i] as usize;
            i = i + 1;
        }
        Ok(out)
    }

    /// The vertex count of `glDrawArrays` for `n_floats` floats of vertex
    /// data in this layout.
    pub fn vertex_count(&self, n_floats: usize) -> (r: Result<i32, LayoutError>)
        requires
            self.wf(),
        ensures
            r is Ok <==> stride_of(self@) <= i32::MAX && total_components(self@) > 0
                && n_floats as int % total_components(self@) == 0 && n_floats as int / total_components(
                self@,
            ) <= i32::MAX,
            r matches Ok(c) ==> c == n_floats as int / total_components(self@),
            r matches Err(e) ==> (e == LayoutError::StrideOverflow <==> stride_of(self@)
                > i32::MAX) && (e == LayoutError::PartialVertex <==> stride_of(self@)
                <= i32::MAX && (total_components(self@) == 0 || n_floats as int % total_components(
                self@,
            ) != 0)),
    {
        let per_vertex = match self.components_per_vertex() {
            Ok(n) => n,
            Err(e) => return Err(e),
        };
        if per_vertex == 0 || n_floats % per_vertex != 0 {
            return Err(LayoutError::PartialVertex);
        }
        match i32::try_from(n_floats / per_vertex) {
            Ok(c) => Ok(c),
            Err(_) => Err(LayoutError::CountOverflow),
        }
    }
}

/// The size in bytes of `n_floats` floats of vertex data, as the `isize`
/// that `glBufferData` takes.
pub fn buffer_size(n_floats: usize) -> (r: Result<isize, LayoutError>)
    ensures
        r is Ok <==> FLOAT_BYTES * n_floats <= isize::MAX,
        r matches Ok(b) ==> b == FLOAT_BYTES * n_floats,
        r matches Err(e) ==> e == LayoutError::BufferOverflow,
{
    if n_floats > (isize::MAX as usize) / FLOAT_BYTES {
        return Err(LayoutError::BufferOverflow);
    }
    Ok((n_floats * FLOAT_BYTES) as isize)
}

} // verus!
