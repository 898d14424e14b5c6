use vstd::prelude::*;

verus! {

/// How the vertices of a draw are assembled into primitives.
#[derive(Clone, Copy, Debug, PartialEq, Eq, Structural)]
pub enum PrimitiveTopology {
    PointList,
    LineList,
    LineStrip,
    TriangleList,
    TriangleStrip,
}

/// Why a render pipeline could not be built.
#[derive(Clone, Copy, Debug, PartialEq, Eq, Structural)]
pub enum PipelineError {
    MissingVertexShader,
    MissingFragmentShader,
}

impl PipelineError {
    /// A sentence that says what is missing.
    pub fn message(&self) -> (r: &'static str)
        ensures
            *self == PipelineError::MissingVertexShader ==> r@ == "Vertex shader must be provided"@,
            *self == PipelineError::MissingFragmentShader ==> r@
                == "Fragment shader must be provided"@,
    {
        match self {
            PipelineError::MissingVertexShader => "Vertex shader must be provided",
            PipelineError::MissingFragmentShader => "Fragment shader must be provided",
        }
    }
}

/// Everything a render pipeline is built from, with both shader stages present.
#[derive(Clone, Debug)]
pub struct PipelineStages<S, L> {
    pub label: Option<String>,
    pub vertex_shader: S,
    pub fragment_shader: S,
    pub vertex_buffer_layouts: Vec<L>,
    pub primitive_topology: PrimitiveTopology,
}

/// Collects the parts of a render pipeline: shader modules of type `S` and
/// vertex buffer layouts of type `L`.
#[derive(Clone, Debug)]
pub struct PipelineBuilder<S, L> {
    pub label: Option<String>,
    pub vertex_shader: Option<S>,
    pub fragment_shader: Option<S>,
    pub vertex_buffer_layouts: Vec<L>,
    pub primitive_topology: PrimitiveTopology,
}

impl<S, L> PipelineBuilder<S, L> {
    /// No label, no shader, no vertex buffer layout, and a triangle list.
    pub fn new() -> (r: Self)
        ensures
            r.label is None,
            r.vertex_shader is None,
            r.fragment_shader is None,
            r.vertex_buffer_layouts@ == Seq::<L>::empty(),
            r.primitive_topology == PrimitiveTopology::TriangleList,
    {
        Self {
            label: None,
            vertex_shader: None,
            fragment_shader: None,
            vertex_buffer_layouts: Vec::new(),
            primitive_topology: PrimitiveTopology::TriangleList,
        }
    }

    pub fn with_label(self, label: &str) -> (r: Self)
        ensures
            r.label matches Some(l) && l@ == label@,
            r.vertex_shader == self.vertex_shader,
            r.fragment_shader == self.fragment_shader,
            r.vertex_buffer_layouts == self.vertex_buffer_layouts,
            r.primitive_topology == self.primitive_topology,
    {
        Self { label: Some(label.to_owned()), ..self }
    }

    pub fn with_vertex_shader(self, shader_module: S) -> (r: Self)
        ensures
            r.label == self.label,
            r.vertex_shader == Some(shader_module),
            r.fragment_shader == self.fragment_shader,
            r.vertex_buffer_layouts == self.vertex_buffer_layouts,
            r.primitive_topology == self.primitive_topology,
    {
        Self { vertex_shader: Some(shader_module), ..self }
    }

    pub fn with_fragment_shader(self, shader_module: S) -> (r: Self)
        ensures
            r.label == self.label,
            r.vertex_shader == self.vertex_shader,
            r.fragment_shader == Some(shader_module),
            r.vertex_buffer_layouts == self.vertex_buffer_layouts,
            r.primitive_topology == self.primitive_topology,
    {
        Self { fragment_shader: Some(shader_module), ..self }
    }

    /// Adds a vertex buffer layout after those already given.
    pub fn with_vertex_buffer_layout(self, layout: L) -> (r: Self)
        ensures
            r.label == self.label,
            r.vertex_shader == self.vertex_shader,
            r.fragment_shader == self.fragment_shader,
            r.vertex_buffer_layouts@ == self.vertex_buffer_layouts@.push(layout),
            r.primitive_topology == self.primitive_topology,
    {
        let mut layouts = self.vertex_buffer_layouts;
        layouts.push(layout);
        Self {
            label: self.label,
            vertex_shader: self.vertex_shader,
            fragment_shader: self.fragment_shader,
            vertex_buffer_layouts: layouts,
            primitive_topology: self.primitive_topology,
        }
    }

    pub fn with_primitive_topology(self, topology: PrimitiveTopology) -> (r: Self)
        ensures
            r.label == self.label,
            r.vertex_shader == self.vertex_shader,
            r.fragment_shader == self.fragment_shader,
            r.vertex_buffer_layouts == self.vertex_buffer_layouts,
            r.primitive_topology == topology,
    {
        Self { primitive_topology: topology, ..self }
    }

    /// The parts of the pipeline, where both shader stages were given; the
    /// vertex shader is looked for first.
    pub fn build(self) -> (r: Result<PipelineStages<S, L>, PipelineError>)
        ensures
            match (self.vertex_shader, self.fragment_shader) {
                (Some(vs), Some(fs)) => r == Ok::<PipelineStages<S, L>, PipelineError>(
                    PipelineStages {
                        label: self.label,
                        vertex_shader: vs,
                        fragment_shader: fs,
                        vertex_buffer_layouts: self.vertex_buffer_layouts,
                        primitive_topology: self.primitive_topology,
                    },
                ),
                (None, _) => r == Err::<PipelineStages<S, L>, PipelineError>(
                    PipelineError::MissingVertexShader,
                ),
                (Some(_), None) => r == Err::<PipelineStages<S, L>, PipelineError>(
                    PipelineError::MissingFragmentShader,
                ),
            },
    {
        match self.vertex_shader {
            None => Err(PipelineError::MissingVertexShader),
            Some(vertex_shader) => match self.fragment_shader {
                None => Err(PipelineError::MissingFragmentShader),
                Some(fragment_shader) => Ok(
                    PipelineStages {
                        label: self.label,
                        vertex_shader,
                        fragment_shader,
                        vertex_buffer_layouts: self.vertex_buffer_layouts,
                        primitive_topology: self.primitive_topology,
                    },
                ),
            },
        }
    }
}

} // verus!
