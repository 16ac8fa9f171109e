//! The counter's side of parameter aggregation: a secret share of the
//! distributed aggregation key and the published public share.

use vstd::prelude::*;

use crate::curve::{g2_enc, is_scalar, point_mul, pt_mul, random_scalar, basepoint_g2};
use crate::{AbvError, CounterSecret, CounterSystemParametersShareRequest};

verus! {

/// Draws one uniformly random scalar from a cryptographically secure source
/// as this counter's secret share. Fresh secret material; never reused
/// across counters and never transmitted.
pub fn make_counter_secret() -> (r: CounterSecret)
    ensures
        is_scalar(r.poll_secret_share@),
        r.poll_secret_share@.len() == 32,
{
    let secret_share = random_scalar();
    CounterSecret { poll_secret_share: secret_share }
}

/// Publishes this counter's share of the system parameters: the public point
/// `secret * G2` under the counter's identifier. Fails exactly when the
/// stored secret cannot be parsed as a scalar.
pub fn make_system_parameters_share(counter_id: &str, counter_secret: &CounterSecret) -> (r:
    Result<CounterSystemParametersShareRequest, AbvError>)
    ensures
        r is Ok <==> counter_secret.poll_secret_share@.len() == 32,
        r matches Ok(share) ==> {
            &&& share.counter_id@ == counter_id@
            &&& share.poll_point_share@ == pt_mul(counter_secret.poll_secret_share@, g2_enc())
        },
        r matches Err(e) ==> e == AbvError::ParseError,
{
    let g2 = basepoint_g2();
    let poll_point_share = point_mul(&counter_secret.poll_secret_share, &g2)?;
    Ok(
        CounterSystemParametersShareRequest {
            counter_id: counter_id.to_string(),
            poll_point_share,
        },
    )
}

} // verus!
