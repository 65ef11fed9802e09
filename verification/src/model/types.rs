//! A model with a name and a set of vertices of any vertex type.

use vstd::prelude::*;

verus! {

/// Represents a model with a name, along with a set of vertices of a generic
/// sized type.
pub struct Model<E> {
    pub name: String,
    pub vertices: Vec<E>,
}

/// The vertices of a sequence of models, in model order and, within each
/// model, in vertex order.
pub open spec fn concat_vertices<E>(models: Seq<Model<E>>) -> Seq<E>
    decreases models.len(),
{
    if models.len() == 0 {
        Seq::empty()
    } else {
        concat_vertices(models.drop_last()) + models.last().vertices@
    }
}

impl<E> Model<E> {
    /// Construct a new instance from a set of vertices.
    pub fn new_from_components(name: String, vertices: Vec<E>) -> (m: Model<E>)
        ensures
            m.name@ == name@,
            m.vertices@ == vertices@,
    {
        Model { name, vertices }
    }

    /// Merge a set of models into a new model under a new name: the new model
    /// holds every vertex of every source model, in order.
    pub fn merge(name: &String, source_models: Vec<Model<E>>) -> (m: Model<E>)
        ensures
            m.name@ == name@,
            m.vertices@ == concat_vertices(source_models@),
    {
        let ghost sources = source_models@;
        let mut all_vertices: Vec<E> = Vec::new();
        for model in it: source_models.into_iter()
            invariant
                it.seq() == sources,
                all_vertices@ == concat_vertices(sources.take(it.index() as int)),
        {
            let ghost k = it.index();
            proof {
                assert(sources.take(k + 1).drop_last() =~= sources.take(k as int));
            }
            let mut model = model;
            all_vertices.append(&mut model.vertices);
        }
        proof {
            assert(sources.take(sources.len() as int) =~= sources);
        }
        Model { name: name.clone(), vertices: all_vertices }
    }
}

} // verus!
