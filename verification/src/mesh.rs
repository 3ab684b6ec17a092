use crate::gl_enums;
use vstd::prelude::*;

verus! {

/// Where one attribute lies in an interleaved vertex buffer: what is handed
/// to the graphics API for it.
#[derive(Debug, Clone, Copy, PartialEq, Eq, Structural)]
pub struct AttributePointer {
    /// The attribute's location in the shader.
    pub index: u32,
    /// The number of components.
    pub size: i32,
    /// The type of a component.
    pub component_type: u32,
    /// Whether integer components are mapped to the unit range.
    pub normalized: bool,
    /// The bytes from one vertex to the next.
    pub stride: i32,
    /// The bytes from the start of a vertex to the attribute.
    pub offset: usize,
}

/// The bytes that one component of the type `component_type` takes, for the
/// types that a vertex attribute may have.
pub open spec fn component_size(component_type: u32) -> Option<int> {
    if component_type == gl_enums::FLOAT {
        Some(4)
    } else if component_type == gl_enums::UNSIGNED_INT {
        Some(4)
    } else if component_type == gl_enums::UNSIGNED_BYTE {
        Some(1)
    } else {
        None
    }
}

/// Whether an attribute can be laid out: its component type has a size and
/// its number of components is not negative.
pub open spec fn attribute_valid(attribute: (u32, i32, u32, bool)) -> bool {
    component_size(attribute.2) is Some && attribute.1 >= 0
}

/// The bytes that an attribute takes in a vertex.
pub open spec fn attribute_bytes(attribute: (u32, i32, u32, bool)) -> int {
    match component_size(attribute.2) {
        Some(size) => attribute.1 * size,
        None => 0,
    }
}

/// The bytes that the first `count` attributes take together.
pub open spec fn bytes_before(attributes: Seq<(u32, i32, u32, bool)>, count: int) -> int
    decreases count,
{
    if count <= 0 {
        0
    } else {
        bytes_before(attributes, count - 1) + attribute_bytes(attributes[count - 1])
    }
}

/// The bytes of one vertex: those of all its attributes.
pub open spec fn vertex_stride(attributes: Seq<(u32, i32, u32, bool)>) -> int {
    bytes_before(attributes, attributes.len() as int)
}

/// Whether `attributes` have a layout: each is valid, and the stride fits
/// the 32-bit signed integer that the graphics API takes it in.
pub open spec fn layout_defined(attributes: Seq<(u32, i32, u32, bool)>) -> bool {
    &&& forall|i: int| 0 <= i < attributes.len() ==> attribute_valid(#[trigger] attributes[i])
    &&& vertex_stride(attributes) <= i32::MAX
}

/// The pointer of attribute number `i` in the layout of `attributes`.
pub open spec fn pointer_at(attributes: Seq<(u32, i32, u32, bool)>, i: int) -> AttributePointer {
    AttributePointer {
        index: attributes[i].0,
        size: attributes[i].1,
        component_type: attributes[i].2,
        normalized: attributes[i].3,
        stride: vertex_stride(attributes) as i32,
        offset: bytes_before(attributes, i) as usize,
    }
}

/// Of valid attributes, a longer prefix takes no fewer bytes.
pub proof fn lemma_bytes_before_grows(attributes: Seq<(u32, i32, u32, bool)>, low: int, high: int)
    requires
        0 <= low <= high <= attributes.len(),
        forall|i: int| 0 <= i < attributes.len() ==> attribute_valid(#[trigger] attributes[i]),
    ensures
        0 <= bytes_before(attributes, low) <= bytes_before(attributes, high),
    decreases high,
{
    if high > 0 {
        assert(attribute_bytes(attributes[high - 1]) >= 0) by (nonlinear_arith)
            requires
                attribute_valid(attributes[high - 1]),
                attribute_bytes(attributes[high - 1]) == attributes[high - 1].1 * component_size(
                    attributes[high - 1].2,
                )->0,
                component_size(attributes[high - 1].2)->0 >= 1,
        ;
        if low < high {
            lemma_bytes_before_grows(attributes, low, high - 1);
        } else {
            lemma_bytes_before_grows(attributes, low - 1, high - 1);
        }
    }
}

/// The bytes of one component of the type `component_type`; `None` for a
/// type that no vertex attribute may have.
pub fn attribute_type_size(component_type: u32) -> (size: Option<usize>)
    ensures
        size is Some <==> component_size(component_type) is Some,
        size is Some ==> size->0 == component_size(component_type)->0,
{
    if component_type == gl_enums::FLOAT {
        Some(4)
    } else if component_type == gl_enums::UNSIGNED_INT {
        Some(4)
    } else if component_type == gl_enums::UNSIGNED_BYTE {
        Some(1)
    } else {
        None
    }
}

/// The layout of interleaved `attributes`, each given as its location, its
/// number of components, the type of a component and whether it is
/// normalized.
///
/// Every attribute gets the same stride, the size of a whole vertex, and
/// the offset at which it begins: the bytes of the attributes before it.
/// There is no layout, and the result is `None`, where an attribute has a
/// component type other than float, unsigned int and unsigned byte or a
/// negative number of components, or where a vertex would take more than
/// `i32::MAX` bytes.
pub fn vertex_layout(attributes: &[(u32, i32, u32, bool)]) -> (layout: Option<
    Vec<AttributePointer>,
>)
    ensures
        layout is Some <==> layout_defined(attributes@),
        layout is Some ==> layout->0@.len() == attributes@.len(),
        layout is Some ==> forall|i: int|
            0 <= i < attributes@.len() ==> (#[trigger] layout->0@[i]) == pointer_at(attributes@, i),
{
    let limit: u64 = 0x7fff_ffff;
    let mut offsets: Vec<usize> = Vec::new();
    let mut stride: u64 = 0;
    let mut i: usize = 0;
    while i < attributes.len()
        invariant
            i <= attributes.len(),
            limit == i32::MAX,
            stride == bytes_before(attributes@, i as int),
            stride <= limit,
            forall|j: int| 0 <= j < i ==> attribute_valid(#[trigger] attributes@[j]),
            offsets@.len() == i,
            forall|j: int| 0 <= j < i ==> (#[trigger] offsets@[j]) == bytes_before(attributes@, j),
        decreases attributes.len() - i,
    {
        let (_, size, component_type, _) = attributes[i];
        let component: u64 = match attribute_type_size(component_type) {
            Some(component) => component as u64,
            None => return None,
        };
        if size < 0 {
            return None;
        }
        assert(size * component <= 4 * i32::MAX) by (nonlinear_arith)
            requires
                0 <= size <= i32::MAX,
                0 <= component <= 4,
        ;
        let bytes: u64 = (size as u64) * component;
        if stride + bytes > limit {
            proof {
                if layout_defined(attributes@) {
                    lemma_bytes_before_grows(attributes@, i + 1, attributes@.len() as int);
                }
            }
            return None;
        }
        offsets.push(stride as usize);
        stride = stride + bytes;
        i += 1;
    }

    let mut layout: Vec<AttributePointer> = Vec::new();
    let mut k: usize = 0;
    while k < attributes.len()
        invariant
            k <= attributes.len(),
            stride == vertex_stride(attributes@),
            stride <= i32::MAX,
            offsets@.len() == attributes@.len(),
            forall|j: int|
                0 <= j < attributes@.len() ==> (#[trigger] offsets@[j]) == bytes_before(
                    attributes@,
                    j,
                ),
            layout@.len() == k,
            forall|j: int| 0 <= j < k ==> (#[trigger] layout@[j]) == pointer_at(attributes@, j),
        decreases attributes.len() - k,
    {
        let (index, size, component_type, normalized) = attributes[k];
        layout.push(
            AttributePointer {
                index,
                size,
                component_type,
                normalized,
                stride: stride as i32,
                offset: offsets[k],
            },
        );
        k += 1;
    }
    Some(layout)
}

} // verus!
