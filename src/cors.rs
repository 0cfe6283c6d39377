use vstd::prelude::*;

use crate::options::Options;

verus! {

/// The origin that is allowed in every mode.
pub const PRODUCTION_ORIGIN: &'static str = "http://somehost";

/// The origin of a local front end, allowed outside production mode only.
pub const DEVELOPMENT_ORIGIN: &'static str = "http://localhost:4200";

/// The request methods that the CORS policy names.
#[derive(Clone, Copy, Debug, PartialEq, Eq, Structural)]
pub enum HttpMethod {
    Options,
    Head,
    Get,
}

/// Which origins, methods and request headers cross-origin callers may use.
pub struct CorsPolicy {
    pub origins: Vec<String>,
    pub methods: Vec<HttpMethod>,
    /// Every request header is allowed.
    pub any_header: bool,
}

/// The allow-list for a mode: the production origin, then the development
/// origin unless in production.
pub open spec fn allowed_origins(prod: bool) -> Seq<Seq<char>> {
    if prod {
        seq![PRODUCTION_ORIGIN@]
    } else {
        seq![PRODUCTION_ORIGIN@, DEVELOPMENT_ORIGIN@]
    }
}

pub open spec fn allowed_methods() -> Seq<HttpMethod> {
    seq![HttpMethod::Options, HttpMethod::Head, HttpMethod::Get]
}

impl CorsPolicy {
    /// The allow-listed origins as character sequences.
    pub open spec fn origins_view(&self) -> Seq<Seq<char>> {
        self.origins@.map_values(|s: String| s@)
    }

    pub open spec fn spec_allows(&self, origin: Seq<char>) -> bool {
        self.origins_view().contains(origin)
    }

    /// Whether a request from `origin` gets an allow-origin header.
    pub fn allows(&self, origin: &str) -> (r: bool)
        ensures
            r == self.spec_allows(origin@),
    {
        let o: String = origin.to_owned();
        let mut i: usize = 0;
        while i < self.origins.len()
            invariant
                0 <= i <= self.origins@.len(),
                o@ == origin@,
                forall|j: int| 0 <= j < i ==> self.origins@[j]@ != origin@,
            decreases self.origins@.len() - i,
        {
            if self.origins[i] == o {
                assert(self.origins_view()[i as int] == origin@);
                return true;
            }
            i = i + 1;
        }
        assert(!self.origins_view().contains(origin@)) by {
            if self.origins_view().contains(origin@) {
                let k = choose|k: int|
                    0 <= k < self.origins_view().len() && self.origins_view()[k] == origin@;
                assert(self.origins@[k]@ == origin@);
            }
        }
        false
    }
}

/// The CORS policy for a configuration.
pub fn init_cors(options: &Options) -> (r: CorsPolicy)
    ensures
        r.origins_view() == allowed_origins(options.prod),
        r.methods@ == allowed_methods(),
        r.any_header,
{
    let mut origins: Vec<String> = Vec::new();
    origins.push(PRODUCTION_ORIGIN.to_owned());
    if !options.prod {
        origins.push(DEVELOPMENT_ORIGIN.to_owned());
    }
    let methods: Vec<HttpMethod> = vec![HttpMethod::Options, HttpMethod::Head, HttpMethod::Get];
    let r = CorsPolicy { origins, methods, any_header: true };
    assert(r.origins_view() =~= allowed_origins(options.prod));
    assert(r.methods@ =~= allowed_methods());
    r
}

} // verus!

verus! {

/// The production origin is on the allow-list in every mode, and the
/// development origin is on it exactly when production mode is off.
pub proof fn lemma_origin_allow_list(prod: bool)
    ensures
        allowed_origins(prod).contains(PRODUCTION_ORIGIN@),
        allowed_origins(prod).contains(DEVELOPMENT_ORIGIN@) <==> !prod,
{
    reveal_strlit("http://somehost");
    reveal_strlit("http://localhost:4200");
    let list = allowed_origins(prod);
    assert(list[0] == PRODUCTION_ORIGIN@);
    if !prod {
        assert(list[1] == DEVELOPMENT_ORIGIN@);
    } else {
        assert(PRODUCTION_ORIGIN@.len() != DEVELOPMENT_ORIGIN@.len());
        assert(!list.contains(DEVELOPMENT_ORIGIN@));
    }
}

} // verus!
