use vstd::prelude::*;
use vstd::arithmetic::div_mod::{
    lemma_fundamental_div_mod, lemma_fundamental_div_mod_converse_div,
    lemma_fundamental_div_mod_converse_mod, lemma_mod_bound,
};
use vstd::arithmetic::mul::lemma_mul_is_commutative;

use crate::errors::DepthError;

verus! {

/// A two-dimensional depth grid, row-major, one 32-bit sample word per cell.
/// The crate never interprets the words: they are the model's samples,
/// carried through untouched between the inference call and quantization.
#[derive(Debug)]
pub struct DepthGrid {
    /// Number of rows.
    pub height: usize,
    /// Number of columns.
    pub width: usize,
    /// `height * width` sample words, row-major.
    pub data: Vec<u32>,
}

impl DepthGrid {
    /// A grid is well formed when its buffer holds exactly one word per cell.
    pub open spec fn wf(&self) -> bool {
        self.data@.len() == self.height * self.width
    }
}

/// The shapes the model may hand back: `[1, h, w]` or `[1, 1, h, w]`.
pub open spec fn valid_output_shape(s: Seq<usize>) -> bool {
    ||| (s.len() == 3 && s[0] == 1)
    ||| (s.len() == 4 && s[0] == 1 && s[1] == 1)
}

/// The grid height a raw output shape stands for. Meaningful only for
/// shapes of rank 3 or 4.
pub open spec fn output_height(s: Seq<usize>) -> usize {
    if s.len() == 3 {
        s[1]
    } else {
        s[2]
    }
}

/// The grid width a raw output shape stands for. Meaningful only for
/// shapes of rank 3 or 4.
pub open spec fn output_width(s: Seq<usize>) -> usize {
    if s.len() == 3 {
        s[2]
    } else {
        s[3]
    }
}

/// The error the normalizer reports for a raw output of shape `s` that it
/// rejects: the wrong leading dimensions of a rank-3 or rank-4 shape each
/// have their own error, any other rank is unsupported, and a buffer that
/// does not match an otherwise acceptable shape is an internal invariant
/// violation.
pub open spec fn shape_error(s: Seq<usize>) -> DepthError {
    if s.len() == 3 {
        if s[0] != 1 {
            DepthError::UnexpectedBatchSize(s[0])
        } else {
            DepthError::InvariantViolation
        }
    } else if s.len() == 4 {
        if s[0] != 1 || s[1] != 1 {
            DepthError::UnexpectedShape(s[0], s[1])
        } else {
            DepthError::InvariantViolation
        }
    } else {
        DepthError::UnsupportedRank(s.len() as usize)
    }
}

/// Whether `len == h * w`, decided without risking overflow in `h * w`.
fn len_matches(len: usize, h: usize, w: usize) -> (r: bool)
    ensures
        r <==> len as int == h as int * w as int,
{
    if w == 0 || h == 0 {
        len == 0
    } else {
        proof {
            lemma_fundamental_div_mod(len as int, w as int);
            lemma_mod_bound(len as int, w as int);
            lemma_mul_is_commutative(h as int, w as int);
            if len as int == h as int * w as int {
                lemma_fundamental_div_mod_converse_div(len as int, w as int, h as int, 0);
                lemma_fundamental_div_mod_converse_mod(len as int, w as int, h as int, 0);
            }
            if len % w == 0 && len / w == h {
                lemma_mul_is_commutative(len as int / w as int, w as int);
            }
        }
        len % w == 0 && len / w == h
    }
}

/// Turn a raw model output, given as its shape and its flat row-major
/// buffer, into the canonical two-dimensional depth grid.
///
/// A rank-3 output `[1, h, w]` loses its batch axis; a rank-4 output
/// `[1, 1, h, w]` loses batch and channel axes. Stripping leading unit axes
/// of a row-major tensor reorders nothing, so the samples come through
/// unchanged. Every other shape is rejected, each kind with its own error.
pub fn normalize_shape(shape: &Vec<usize>, data: Vec<u32>) -> (r: Result<DepthGrid, DepthError>)
    ensures
        r is Ok <==> valid_output_shape(shape@) && data@.len() as int == output_height(shape@)
            as int * output_width(shape@) as int,
        r matches Ok(g) ==> g.height == output_height(shape@) && g.width == output_width(shape@)
            && g.data@ == data@ && g.wf(),
        r matches Err(e) ==> e == shape_error(shape@),
{
    let n = shape.len();
    if n == 3 {
        if shape[0] != 1 {
            return Err(DepthError::UnexpectedBatchSize(shape[0]));
        }
        let h = shape[1];
        let w = shape[2];
        if !len_matches(data.len(), h, w) {
            return Err(DepthError::InvariantViolation);
        }
        Ok(DepthGrid { height: h, width: w, data })
    } else if n == 4 {
        if shape[0] != 1 || shape[1] != 1 {
            return Err(DepthError::UnexpectedShape(shape[0], shape[1]));
        }
        let h = shape[2];
        let w = shape[3];
        if !len_matches(data.len(), h, w) {
            return Err(DepthError::InvariantViolation);
        }
        Ok(DepthGrid { height: h, width: w, data })
    } else {
        Err(DepthError::UnsupportedRank(n))
    }
}

/// A rank-3 output `[1, h, w]` and a rank-4 output `[1, 1, h, w]` stand for
/// the same grid: both shapes are accepted, and they agree on height and
/// width, so on equal sample buffers the normalizer yields equal grids.
pub proof fn lemma_rank3_rank4_agree(h: usize, w: usize)
    ensures
        valid_output_shape(seq![1usize, h, w]),
        valid_output_shape(seq![1usize, 1usize, h, w]),
        output_height(seq![1usize, h, w]) == h,
        output_width(seq![1usize, h, w]) == w,
        output_height(seq![1usize, 1usize, h, w]) == h,
        output_width(seq![1usize, 1usize, h, w]) == w,
{
}

} // verus!
