//! What the camera hands to the device each frame.

use crate::uniformbuffer::{UniformBuffer, UniformContent};
use vstd::prelude::*;

verus! {

/// Number of components of a four-by-four matrix.
pub const MATRIX_WORDS: usize = 16;

/// Content of the camera's uniform buffer: the view-projection matrix,
/// column after column, each component the bit pattern of a single-precision
/// number.
#[derive(Clone, Copy, Debug, PartialEq, Eq)]
pub struct CameraUniformBufferContent {
    pub view_projection: [u32; 16],
}

/// The uniform buffer that carries the camera's content.
pub type CameraUniformBuffer<Buffer> = UniformBuffer<CameraUniformBufferContent, Buffer>;

impl UniformContent for CameraUniformBufferContent {
    open spec fn spec_name() -> Seq<char> {
        "CameraUniformBufferContent"@
    }

    open spec fn spec_word_count() -> nat {
        16
    }

    open spec fn spec_words(&self) -> Seq<u32> {
        self.view_projection@
    }

    proof fn lemma_layout() {
    }

    fn name() -> (name: String) {
        "CameraUniformBufferContent".to_owned()
    }

    fn word_count() -> (count: u64) {
        16
    }

    fn words(&self) -> (words: Vec<u32>) {
        let mut words: Vec<u32> = Vec::new();
        let mut i: usize = 0;
        while i < MATRIX_WORDS
            invariant
                i <= MATRIX_WORDS,
                words@ == self.view_projection@.take(i as int),
            decreases MATRIX_WORDS - i,
        {
            words.push(self.view_projection[i]);
            i += 1;
        }
        assert(self.view_projection@.take(16) == self.view_projection@);
        words
    }
}

} // verus!
