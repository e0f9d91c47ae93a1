//! The per-asset record: current stage, optional environmental fields, the
//! identities recorded at the relevant stages, and descriptive fields set at
//! mint time and mutable thereafter.

use vstd::prelude::*;

use crate::lifecycle::LifecycleState;

verus! {

/// One free-form descriptive attribute of an asset.
#[derive(Debug)]
pub struct Attribute {
    pub trait_type: String,
    pub value: String,
}

impl Clone for Attribute {
    fn clone(&self) -> (res: Self)
        ensures
            res == *self,
    {
        Attribute { trait_type: self.trait_type.clone(), value: self.value.clone() }
    }
}

/// A partial update of the descriptive fields: every field left `None` keeps
/// its existing value.
#[derive(Debug)]
pub struct OpenSeaMetadata {
    pub name: Option<String>,
    pub description: Option<String>,
    pub image: Option<String>,
    pub external_url: Option<String>,
    pub attributes: Option<Vec<Attribute>>,
}

/// The full record kept for one asset.
#[derive(Debug)]
pub struct SeedMetadata {
    pub state: LifecycleState,
    pub location: Option<String>,
    pub temperature: Option<i32>,
    pub humidity: Option<u32>,
    pub lab_analysis: Option<String>,
    pub processor: Option<u64>,
    pub distributor: Option<u64>,
    pub consumer: Option<u64>,
    pub updated_at: u64,
    pub name: String,
    pub description: String,
    pub image: String,
    pub external_url: Option<String>,
    pub attributes: Vec<Attribute>,
}

/// Clone an optional string, preserving the value exactly.
pub fn clone_opt_string(s: &Option<String>) -> (res: Option<String>)
    ensures
        res == *s,
{
    match s {
        Some(v) => Some(v.clone()),
        None => None,
    }
}

/// Clone a list of attributes elementwise, preserving the sequence of
/// attribute values.
pub fn clone_attributes(attrs: &Vec<Attribute>) -> (res: Vec<Attribute>)
    ensures
        res@ == attrs@,
{
    let mut out: Vec<Attribute> = Vec::new();
    let mut i: usize = 0;
    while i < attrs.len()
        invariant
            i <= attrs.len(),
            out@ == attrs@.take(i as int),
        decreases attrs.len() - i,
    {
        out.push(attrs[i].clone());
        i = i + 1;
        proof {
            assert(out@ =~= attrs@.take(i as int));
        }
    }
    proof {
        assert(attrs@.take(attrs@.len() as int) =~= attrs@);
    }
    out
}

} // verus!
