use vstd::prelude::*;

verus! {

/// One record of the static 64-hexagram reference dataset: identifier,
/// name and canonical texts. Used by browsing features only; the
/// casting algorithms never read it.
#[derive(Clone, Debug)]
pub struct Gua64Info {
    pub id: String,
    pub name: String,
    pub gua_ci: String,
    pub tuan_ci: String,
    pub da_xiang: String,
    pub yao_ci: Vec<String>,
    pub xiao_xiang: Vec<String>,
    pub symbol: String,
}

} // verus!
