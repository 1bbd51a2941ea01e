use vstd::prelude::*;
use crate::shortcuts::{layer_step_stays_in_stack, layer_step_target, layer_target, LayerStep};

verus! {

/// A canvas of the vector document and the layers it holds, in stacking
/// order, by id.
#[derive(Clone, Debug)]
pub struct CanvasLayers {
    pub canvas: u64,
    pub layers: Vec<u64>,
}

/// The canvas and layer that the vector mode draws on, once chosen.
#[derive(Clone, Copy, Debug, PartialEq, Eq, Structural)]
pub struct VectorSurface {
    pub canvas: Option<u64>,
    pub layer: Option<u64>,
}

/// Where the vector mode is to draw.
#[derive(Clone, Copy, Debug, PartialEq, Eq, Structural)]
pub enum SurfaceChoice {
    /// The canvas and layer already chosen, which the document still holds.
    Current { canvas: u64, layer: u64 },
    /// The document's first canvas and its first layer, now chosen.
    First { canvas: u64, layer: u64 },
    /// Neither: a new canvas is to be created and its layer chosen.
    Create,
}

/// The index of the first canvas with id `canvas`, which is the one the
/// document finds by that id.
pub open spec fn canvas_found(canvases: Seq<CanvasLayers>, canvas: u64, i: int) -> bool {
    &&& 0 <= i < canvases.len()
    &&& canvases[i].canvas == canvas
    &&& forall|j: int| 0 <= j < i ==> #[trigger] canvases[j].canvas != canvas
}

/// Whether the document still holds `layer` on canvas `canvas`.
pub open spec fn holds(canvases: Seq<CanvasLayers>, canvas: u64, layer: u64) -> bool {
    exists|i: int| canvas_found(canvases, canvas, i) && canvases[i].layers@.contains(layer)
}

/// Where to draw with `surface` chosen before, over `canvases`.
pub open spec fn surface_choice(surface: VectorSurface, canvases: Seq<CanvasLayers>) -> SurfaceChoice {
    if surface.canvas is Some && surface.layer is Some && holds(
        canvases,
        surface.canvas->0,
        surface.layer->0,
    ) {
        SurfaceChoice::Current { canvas: surface.canvas->0, layer: surface.layer->0 }
    } else if canvases.len() > 0 && canvases[0].layers@.len() > 0 {
        SurfaceChoice::First { canvas: canvases[0].canvas, layer: canvases[0].layers@[0] }
    } else {
        SurfaceChoice::Create
    }
}

/// The surface chosen after `choice`.
pub open spec fn surface_after(surface: VectorSurface, choice: SurfaceChoice) -> VectorSurface {
    match choice {
        SurfaceChoice::First { canvas, layer } => VectorSurface { canvas: Some(canvas), layer: Some(layer) },
        _ => surface,
    }
}

/// The position of `layer` in `layers`, the first where it occurs.
pub fn layer_position(layers: &Vec<u64>, layer: u64) -> (p: Option<usize>)
    ensures
        match p {
            Some(i) => {
                &&& i < layers@.len()
                &&& layers@[i as int] == layer
                &&& forall|j: int| 0 <= j < i ==> #[trigger] layers@[j] != layer
            },
            None => !layers@.contains(layer),
        },
{
    let n = layers.len();
    for i in 0..n
        invariant
            n == layers@.len(),
            forall|j: int| 0 <= j < i ==> #[trigger] layers@[j] != layer,
    {
        if layers[i] == layer {
            return Some(i);
        }
    }
    None
}

/// The index of the canvas that the document finds by `canvas`.
fn find_canvas(canvases: &Vec<CanvasLayers>, canvas: u64) -> (found: Option<usize>)
    ensures
        match found {
            Some(i) => canvas_found(canvases@, canvas, i as int),
            None => forall|i: int| 0 <= i < canvases@.len() ==> #[trigger] canvases@[i].canvas != canvas,
        },
{
    let n = canvases.len();
    for i in 0..n
        invariant
            n == canvases@.len(),
            forall|j: int| 0 <= j < i ==> #[trigger] canvases@[j].canvas != canvas,
    {
        if canvases[i].canvas == canvas {
            return Some(i);
        }
    }
    None
}

/// Where a layer step from `layer` leads among `layers`: the index and id
/// of the layer there, or nothing when `layer` is not among them.
pub fn vector_layer_step(layers: &Vec<u64>, layer: u64, step: LayerStep) -> (r: Option<(usize, u64)>)
    ensures
        !layers@.contains(layer) ==> r is None,
        layers@.contains(layer) ==> exists|i: int|
            #![trigger layers@[i]]
            {
                &&& 0 <= i < layers@.len()
                &&& layers@[i] == layer
                &&& forall|j: int| 0 <= j < i ==> #[trigger] layers@[j] != layer
                &&& r == Some(
                    (
                        layer_target(i, layers@.len() as int, step) as usize,
                        layers@[layer_target(i, layers@.len() as int, step)],
                    ),
                )
            },
{
    match layer_position(layers, layer) {
        Some(index) => {
            let target = layer_step_target(index, layers.len(), step);
            proof {
                layer_step_stays_in_stack(index as int, layers@.len() as int, step);
            }
            let id = layers[target];
            assert(layers@[index as int] == layer);
            Some((target, id))
        },
        None => None,
    }
}

impl Default for VectorSurface {
    /// Nothing chosen yet.
    fn default() -> (s: Self)
        ensures
            s.canvas is None,
            s.layer is None,
    {
        VectorSurface { canvas: None, layer: None }
    }
}

impl VectorSurface {
    /// Chooses where the vector mode draws: the surface chosen before if
    /// the document still holds it; else the first canvas and its first
    /// layer, which become the chosen surface; else a canvas is to be
    /// created, whose layer the host then adopts.
    pub fn ensure(&mut self, canvases: &Vec<CanvasLayers>) -> (choice: SurfaceChoice)
        ensures
            choice == surface_choice(*old(self), canvases@),
            *final(self) == surface_after(*old(self), choice),
            choice matches SurfaceChoice::Current { canvas, layer } ==> {
                &&& old(self).canvas == Some(canvas)
                &&& old(self).layer == Some(layer)
                &&& *final(self) == *old(self)
            },
            choice matches SurfaceChoice::First { canvas, layer } ==> {
                &&& canvases@.len() > 0
                &&& canvas == canvases@[0].canvas
                &&& canvases@[0].layers@.len() > 0
                &&& layer == canvases@[0].layers@[0]
                &&& final(self).canvas == Some(canvas)
                &&& final(self).layer == Some(layer)
            },
            choice is Create ==> *final(self) == *old(self),
            (old(self).canvas matches Some(c) && old(self).layer matches Some(l) && exists|i: int|
                0 <= i < canvases@.len() && canvases@[i].canvas == c && (forall|j: int|
                    0 <= j < i ==> #[trigger] canvases@[j].canvas != c) && canvases@[i].layers@.contains(
                    l,
                )) ==> choice == (SurfaceChoice::Current {
                canvas: old(self).canvas->0,
                layer: old(self).layer->0,
            }),
    {
        match (self.canvas, self.layer) {
            (Some(canvas), Some(layer)) => {
                match find_canvas(canvases, canvas) {
                    Some(i) => {
                        match layer_position(&canvases[i].layers, layer) {
                            Some(_) => {
                                return SurfaceChoice::Current { canvas, layer };
                            },
                            None => {
                                assert forall|k: int| canvas_found(canvases@, canvas, k) implies !canvases@[k].layers@.contains(layer) by {
                                    assert(k == i as int);
                                }
                            },
                        }
                    },
                    None => {},
                }
            },
            _ => {},
        }
        if canvases.len() > 0 && canvases[0].layers.len() > 0 {
            let canvas = canvases[0].canvas;
            let layer = canvases[0].layers[0];
            self.canvas = Some(canvas);
            self.layer = Some(layer);
            SurfaceChoice::First { canvas, layer }
        } else {
            SurfaceChoice::Create
        }
    }

    /// Draws on `layer` of the chosen canvas from now on.
    pub fn select_layer(&mut self, layer: u64)
        ensures
            final(self).canvas == old(self).canvas,
            final(self).layer == Some(layer),
    {
        self.layer = Some(layer);
    }

    /// Adopts a newly created canvas and its layer as the surface.
    pub fn adopt(&mut self, canvas: u64, layer: u64)
        ensures
            final(self).canvas == Some(canvas),
            final(self).layer == Some(layer),
    {
        self.canvas = Some(canvas);
        self.layer = Some(layer);
    }
}

/// A chosen canvas and layer are kept wherever the layer stands in that
/// canvas's stack: if the document finds the canvas by its id (the first
/// canvas with that id) and the canvas holds the layer, choosing again
/// draws on that canvas and layer and changes nothing.
pub proof fn a_held_surface_is_kept(canvases: Seq<CanvasLayers>, canvas: u64, layer: u64, i: int)
    requires
        0 <= i < canvases.len(),
        canvases[i].canvas == canvas,
        forall|j: int| 0 <= j < i ==> #[trigger] canvases[j].canvas != canvas,
        canvases[i].layers@.contains(layer),
    ensures
        ({
            let surface = VectorSurface { canvas: Some(canvas), layer: Some(layer) };
            &&& surface_choice(surface, canvases) == (SurfaceChoice::Current { canvas, layer })
            &&& surface_after(surface, surface_choice(surface, canvases)) == surface
        }),
{
    assert(canvas_found(canvases, canvas, i));
}

/// Where the chosen surface is incomplete, or the document no longer
/// holds its layer on its canvas, the first canvas and the first layer of
/// its stack become the surface; a document without either calls for a
/// new canvas and leaves the surface as it was.
pub proof fn a_lost_surface_falls_back_to_the_first(surface: VectorSurface, canvases: Seq<CanvasLayers>)
    requires
        surface.canvas is None || surface.layer is None || forall|i: int|
            0 <= i < canvases.len() && #[trigger] canvases[i].canvas == surface.canvas->0
                ==> !canvases[i].layers@.contains(surface.layer->0),
    ensures
        canvases.len() > 0 && canvases[0].layers@.len() > 0 ==> {
            &&& surface_choice(surface, canvases) == (SurfaceChoice::First {
                canvas: canvases[0].canvas,
                layer: canvases[0].layers@[0],
            })
            &&& surface_after(surface, surface_choice(surface, canvases)) == (VectorSurface {
                canvas: Some(canvases[0].canvas),
                layer: Some(canvases[0].layers@[0]),
            })
        },
        !(canvases.len() > 0 && canvases[0].layers@.len() > 0) ==> {
            &&& surface_choice(surface, canvases) == SurfaceChoice::Create
            &&& surface_after(surface, surface_choice(surface, canvases)) == surface
        },
{
}

/// A surface, once chosen, is reused: choosing again over the same
/// document finds it, creates nothing and changes nothing.
pub proof fn chosen_surface_is_reused(surface: VectorSurface, canvases: Seq<CanvasLayers>)
    ensures
        ({
            let first = surface_choice(surface, canvases);
            let chosen = surface_after(surface, first);
            match first {
                SurfaceChoice::Current { canvas, layer } | SurfaceChoice::First { canvas, layer } => {
                    &&& surface_choice(chosen, canvases) == (SurfaceChoice::Current { canvas, layer })
                    &&& surface_after(chosen, surface_choice(chosen, canvases)) == chosen
                },
                SurfaceChoice::Create => true,
            }
        }),
{
    let first = surface_choice(surface, canvases);
    match first {
        SurfaceChoice::First { canvas, layer } => {
            assert(canvas_found(canvases, canvas, 0));
            assert(canvases[0].layers@.contains(layer)) by {
                assert(canvases[0].layers@[0] == layer);
            }
        },
        _ => {},
    }
}

/// A surface is created once and reused: after a canvas is created for
/// want of one and its layer adopted, choosing again over the document
/// that now holds it finds that canvas and layer.
pub proof fn created_surface_is_reused(
    surface: VectorSurface,
    canvases: Seq<CanvasLayers>,
    created: CanvasLayers,
    layer: u64,
)
    requires
        surface_choice(surface, canvases) == SurfaceChoice::Create,
        forall|i: int| 0 <= i < canvases.len() ==> #[trigger] canvases[i].canvas != created.canvas,
        created.layers@ == seq![layer],
    ensures
        ({
            let adopted = VectorSurface { canvas: Some(created.canvas), layer: Some(layer) };
            let document = canvases.push(created);
            &&& surface_choice(adopted, document) == (SurfaceChoice::Current {
                canvas: created.canvas,
                layer,
            })
            &&& surface_after(adopted, surface_choice(adopted, document)) == adopted
        }),
{
    let document = canvases.push(created);
    assert(canvas_found(document, created.canvas, canvases.len() as int));
    assert(document[canvases.len() as int].layers@.contains(layer)) by {
        assert(document[canvases.len() as int].layers@[0] == layer);
    }
}

} // verus!
