use vstd::prelude::*;

verus! {

/// The raw file contents needed to build a tokenizer, one entry per fixed
/// logical role.  Equality is value-based: two sets with identical bytes are
/// equal.
#[derive(Debug, Clone, Eq)]
pub struct TokenizerFiles {
    pub tokenizer_file: Vec<u8>,
    pub config_file: Vec<u8>,
    pub special_tokens_map_file: Vec<u8>,
    pub tokenizer_config_file: Vec<u8>,
}

impl TokenizerFiles {
    /// A file set is complete when every role has content; role coverage is
    /// validated at assembly time, not when the set is built.
    pub open spec fn spec_is_complete(self) -> bool {
        &&& self.tokenizer_file@.len() > 0
        &&& self.config_file@.len() > 0
        &&& self.special_tokens_map_file@.len() > 0
        &&& self.tokenizer_config_file@.len() > 0
    }

    pub fn is_complete(&self) -> (r: bool)
        ensures
            r == self.spec_is_complete(),
    {
        self.tokenizer_file.len() > 0 && self.config_file.len() > 0
            && self.special_tokens_map_file.len() > 0 && self.tokenizer_config_file.len() > 0
    }
}

/// Value equality of two byte vectors, stated over their views.
pub(crate) fn bytes_eq(a: &Vec<u8>, b: &Vec<u8>) -> (r: bool)
    ensures
        r == (a@ == b@),
{
    let r = a == b;
    proof {
        if r {
            assert(a@ =~= b@);
        }
    }
    r
}

impl PartialEq for TokenizerFiles {
    fn eq(&self, other: &Self) -> (r: bool) {
        bytes_eq(&self.tokenizer_file, &other.tokenizer_file)
            && bytes_eq(&self.config_file, &other.config_file)
            && bytes_eq(&self.special_tokens_map_file, &other.special_tokens_map_file)
            && bytes_eq(&self.tokenizer_config_file, &other.tokenizer_config_file)
    }
}

impl vstd::std_specs::cmp::PartialEqSpecImpl for TokenizerFiles {
    open spec fn obeys_eq_spec() -> bool {
        true
    }

    open spec fn eq_spec(&self, other: &Self) -> bool {
        &&& self.tokenizer_file@ == other.tokenizer_file@
        &&& self.config_file@ == other.config_file@
        &&& self.special_tokens_map_file@ == other.special_tokens_map_file@
        &&& self.tokenizer_config_file@ == other.tokenizer_config_file@
    }
}

} // verus!
