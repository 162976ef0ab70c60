use vstd::prelude::*;
use vstd::string::StrSliceExecFns;

verus! {

/// The HTTP methods a run can use.
#[derive(Clone, Copy, Debug, PartialEq, Eq, Structural)]
pub enum Method {
    Get,
    Post,
}

/// Why a run was refused before any worker started.
#[derive(Clone, Copy, Debug, PartialEq, Eq, Structural)]
pub enum ConfigError {
    /// The worker count is zero.
    NoWorkers,
    /// The per-worker rate is zero.
    NoRate,
    /// The method is neither GET nor POST.
    UnsupportedMethod,
    /// The global rate exceeds what the limiter can hold.
    RateTooLarge,
}

/// The largest number of slots the concurrency limiter can be built with.
pub const MAX_LIMITER_CAPACITY: usize = usize::MAX / 8;

/// What `str::to_uppercase` returns for the given characters.
pub uninterp spec fn upper_of(s: Seq<char>) -> Seq<char>;

/// Relies on `str::to_uppercase`: the result depends on the characters alone.
#[verifier::external_body]
fn uppercase(s: &str) -> (r: String)
    ensures
        r@ == upper_of(s@),
{
    s.to_uppercase()
}

/// The method named by an already upper-cased word.
pub open spec fn method_of(u: Seq<char>) -> Option<Method> {
    if u == seq!['G', 'E', 'T'] {
        Some(Method::Get)
    } else if u == seq!['P', 'O', 'S', 'T'] {
        Some(Method::Post)
    } else {
        None
    }
}

/// The method named by an operator's word, compared without regard to case.
pub open spec fn parsed_method(s: Seq<char>) -> Result<Method, ConfigError> {
    match method_of(upper_of(s)) {
        Some(m) => Ok(m),
        None => Err(ConfigError::UnsupportedMethod),
    }
}

/// Reads an upper-case method word: exactly `GET` or `POST`.
pub fn method_from_upper(u: &str) -> (r: Option<Method>)
    ensures
        r == method_of(u@),
{
    let n = u.unicode_len();
    if n == 3 && u.get_char(0) == 'G' && u.get_char(1) == 'E' && u.get_char(2) == 'T' {
        assert(u@ =~= seq!['G', 'E', 'T']);
        Some(Method::Get)
    } else if n == 4 && u.get_char(0) == 'P' && u.get_char(1) == 'O' && u.get_char(2) == 'S'
        && u.get_char(3) == 'T' {
        assert(u@ =~= seq!['P', 'O', 'S', 'T']);
        Some(Method::Post)
    } else {
        proof {
            if u@ == seq!['G', 'E', 'T'] {
                assert(u@[0] == 'G' && u@[1] == 'E' && u@[2] == 'T');
            }
            if u@ == seq!['P', 'O', 'S', 'T'] {
                assert(u@[0] == 'P' && u@[1] == 'O' && u@[2] == 'S' && u@[3] == 'T');
            }
        }
        None
    }
}

/// Reads a method word in any case: `get`, `Post`, ...
pub fn parse_method(s: &str) -> (r: Result<Method, ConfigError>)
    ensures
        r == parsed_method(s@),
{
    let u = uppercase(s);
    match method_from_upper(u.as_str()) {
        Some(m) => Ok(m),
        None => Err(ConfigError::UnsupportedMethod),
    }
}

/// The immutable parameters of one run.
#[derive(Clone, Debug)]
pub struct RunConfig {
    pub url: String,
    pub method: Method,
    /// Sent only with POST.
    pub body: String,
    pub worker_count: usize,
    pub per_worker_qps: usize,
}

/// The first thing wrong with a worker count and a per-worker rate, if any.
pub open spec fn sizing_error(worker_count: int, per_worker_qps: int) -> Option<ConfigError> {
    if worker_count < 1 {
        Some(ConfigError::NoWorkers)
    } else if per_worker_qps < 1 {
        Some(ConfigError::NoRate)
    } else if worker_count * per_worker_qps > MAX_LIMITER_CAPACITY {
        Some(ConfigError::RateTooLarge)
    } else {
        None
    }
}

impl RunConfig {
    /// A configuration that a run accepts.
    pub open spec fn valid(&self) -> bool {
        sizing_error(self.worker_count as int, self.per_worker_qps as int).is_none()
    }

    /// The global rate target, which is also the limiter's capacity.
    pub open spec fn global_qps(&self) -> int {
        self.worker_count * self.per_worker_qps
    }

    /// Builds a configuration from an operator's answers, refusing bad ones.
    /// The method is checked first, then the worker count, then the rate.
    pub fn new(url: String, method: &str, body: String, worker_count: usize, per_worker_qps: usize)
        -> (r: Result<RunConfig, ConfigError>)
        ensures
            match parsed_method(method@) {
                Err(e) => r == Err::<RunConfig, ConfigError>(e),
                Ok(m) => match sizing_error(worker_count as int, per_worker_qps as int) {
                    Some(e) => r == Err::<RunConfig, ConfigError>(e),
                    None => r is Ok && r->Ok_0 == (RunConfig {
                        url,
                        method: m,
                        body,
                        worker_count,
                        per_worker_qps,
                    }),
                },
            },
    {
        let m = match parse_method(method) {
            Ok(m) => m,
            Err(e) => return Err(e),
        };
        let c = RunConfig { url, method: m, body, worker_count, per_worker_qps };
        match c.validate() {
            Ok(()) => Ok(c),
            Err(e) => Err(e),
        }
    }

    /// Checks the sizing of a configuration.
    pub fn validate(&self) -> (r: Result<(), ConfigError>)
        ensures
            r is Ok <==> self.valid(),
            r is Err ==> sizing_error(self.worker_count as int, self.per_worker_qps as int)
                == Some(r->Err_0),
    {
        if self.worker_count == 0 {
            Err(ConfigError::NoWorkers)
        } else if self.per_worker_qps == 0 {
            Err(ConfigError::NoRate)
        } else if self.worker_count > MAX_LIMITER_CAPACITY / self.per_worker_qps {
            proof {
                let w = self.worker_count as int;
                let q = self.per_worker_qps as int;
                let d = (MAX_LIMITER_CAPACITY / self.per_worker_qps) as int;
                assert(w * q > MAX_LIMITER_CAPACITY) by (nonlinear_arith)
                    requires
                        w >= d + 1,
                        q >= 1,
                        d == MAX_LIMITER_CAPACITY as int / q,
                ;
            }
            Err(ConfigError::RateTooLarge)
        } else {
            proof {
                let w = self.worker_count as int;
                let q = self.per_worker_qps as int;
                let d = (MAX_LIMITER_CAPACITY / self.per_worker_qps) as int;
                assert(w * q <= MAX_LIMITER_CAPACITY) by (nonlinear_arith)
                    requires
                        w <= d,
                        q >= 1,
                        d == MAX_LIMITER_CAPACITY as int / q,
                ;
            }
            Ok(())
        }
    }

    /// The global rate target: per-worker rate times worker count.
    pub fn expected_global_qps(&self) -> (r: usize)
        requires
            self.valid(),
        ensures
            r == self.global_qps(),
            r <= MAX_LIMITER_CAPACITY,
    {
        self.worker_count * self.per_worker_qps
    }
}

} // verus!
