use crate::vertex::Vertex;
use vstd::prelude::*;

verus! {

/// The geometry for one buffer slot: vertices, and the indices by which
/// they are drawn. Without indices the vertices are drawn as they come.
#[derive(Debug)]
pub struct VertexPack {
    pub vertices: Vec<Vertex>,
    pub elements: Vec<u32>,
}

impl VertexPack {
    pub fn new(vertices: Vec<Vertex>, elements: Option<Vec<u32>>) -> (pack: VertexPack)
        ensures
            pack.vertices == vertices,
            match elements {
                Some(e) => pack.elements == e,
                None => pack.elements@ == Seq::<u32>::empty(),
            },
    {
        let elements = match elements {
            Some(e) => e,
            None => Vec::new(),
        };
        VertexPack { vertices, elements }
    }
}

} // verus!
