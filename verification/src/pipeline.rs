//! The linear rendering pipeline: resolve the document's text against the
//! font catalog, resolve the target size and scale from the caller's
//! constraint, and rasterize. The pipeline aborts at the first failing stage
//! and never hands out a partial result.

use crate::document::VectorDocument;
use crate::fonts::FontCatalog;
use crate::raster::{
    render, rendered_pixels, PixelBuffer, RasterError, MAX_RASTER_DIMENSION,
};
use crate::size::{
    dim_ok, resolve, spec_target_height, spec_target_width, ScaleFactors, SizeConstraint,
    SizeError, TargetDimensions,
};
use crate::text::{lemma_resolved_has_no_text, resolve_text, resolved_nodes};
use vstd::prelude::*;

verus! {

/// The first failure of a pipeline run.
#[derive(Clone, Copy, PartialEq, Eq, Structural, Debug)]
pub enum PipelineError {
    Size(SizeError),
    Raster(RasterError),
}

/// Run the whole pipeline on a document: text resolution in place, then size
/// resolution against the constraint, then rasterization at the resolved
/// size and scale.
///
/// The document's text is resolved even when a later stage fails. Size
/// resolution fails as `resolve` does; rasterization can only fail to
/// allocate, since no unresolved text is left by the time it runs — a
/// `RenderFailure` never escapes this function.
pub fn run_pipeline(
    doc: &mut VectorDocument,
    catalog: &FontCatalog,
    constraint: &SizeConstraint,
) -> (r: Result<PixelBuffer, PipelineError>)
    ensures
        final(doc).width == old(doc).width,
        final(doc).height == old(doc).height,
        final(doc).nodes@ == resolved_nodes(old(doc).nodes@, catalog.families()),
        ({
            let w = old(doc).width as int;
            let h = old(doc).height as int;
            let tw = spec_target_width(w, h, *constraint);
            let th = spec_target_height(w, h, *constraint);
            &&& (r == Err::<PixelBuffer, PipelineError>(
                PipelineError::Size(SizeError::ZeroIntrinsicDimension),
            ) <==> (w == 0 || h == 0))
            &&& (r == Err::<PixelBuffer, PipelineError>(
                PipelineError::Size(SizeError::InvalidTargetSize),
            ) <==> (w > 0 && h > 0 && !(dim_ok(tw) && dim_ok(th))))
            &&& (r == Err::<PixelBuffer, PipelineError>(
                PipelineError::Raster(RasterError::AllocationFailed),
            ) <==> (w > 0 && h > 0 && dim_ok(tw) && dim_ok(th) && !(tw <= MAX_RASTER_DIMENSION
                && th <= MAX_RASTER_DIMENSION)))
            &&& r != Err::<PixelBuffer, PipelineError>(
                PipelineError::Raster(RasterError::RenderFailure),
            )
            &&& (r is Ok <==> (w > 0 && h > 0 && 1 <= tw <= MAX_RASTER_DIMENSION && 1 <= th
                <= MAX_RASTER_DIMENSION))
            &&& (r matches Ok(buf) ==> {
                &&& buf.wf()
                &&& buf.spec_width() == tw
                &&& buf.spec_height() == th
                &&& buf.spec_pixels() == rendered_pixels(
                    resolved_nodes(old(doc).nodes@, catalog.families()),
                    tw,
                    th,
                    ScaleFactors {
                        x_num: buf.spec_width(),
                        x_den: old(doc).width,
                        y_num: buf.spec_height(),
                        y_den: old(doc).height,
                    },
                )
            })
        }),
{
    resolve_text(doc, catalog);
    let (target, scale): (TargetDimensions, ScaleFactors) =
        match resolve(doc.width, doc.height, constraint) {
        Ok(p) => p,
        Err(e) => {
            return Err(PipelineError::Size(e));
        },
    };
    proof {
        lemma_resolved_has_no_text(old(doc).nodes@, catalog.families());
    }
    match render(doc, &target, &scale) {
        Ok(buf) => Ok(buf),
        Err(e) => Err(PipelineError::Raster(e)),
    }
}

} // verus!
