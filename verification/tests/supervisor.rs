use relayer::supervisor::{classify_outcome, keepalive, Error, Outcome, WorkloadEnd};

#[test]
fn ceiling_becomes_alive_timeout() {
    assert_eq!(keepalive(2, WorkloadEnd::Ceiling), Err(Error::AliveTimeout));
}

#[test]
fn natural_completion_passes_through() {
    assert_eq!(keepalive(0, WorkloadEnd::Done), Ok(()));
    assert_eq!(keepalive(5, WorkloadEnd::Done), Ok(()));
}

#[test]
fn workload_failures_collapse_to_lost() {
    assert_eq!(keepalive(0, WorkloadEnd::Failed(Error::IO)), Err(Error::Lost));
    assert_eq!(keepalive(0, WorkloadEnd::Failed(Error::Ws)), Err(Error::Lost));
    assert_eq!(keepalive(3, WorkloadEnd::Failed(Error::ConnectTimeout)), Err(Error::Lost));
    assert_eq!(keepalive(3, WorkloadEnd::Failed(Error::Lost)), Err(Error::Lost));
}

#[test]
fn only_the_ceiling_classifies_as_close() {
    assert_eq!(classify_outcome(&Err(Error::AliveTimeout)), Outcome::Close);
    assert_eq!(classify_outcome(&Ok(())), Outcome::Lost);
    assert_eq!(classify_outcome(&Err(Error::Lost)), Outcome::Lost);
    assert_eq!(classify_outcome(&Err(Error::IO)), Outcome::Lost);
    assert_eq!(classify_outcome(&Err(Error::Ws)), Outcome::Lost);
    assert_eq!(classify_outcome(&Err(Error::ConnectTimeout)), Outcome::Lost);
}

#[test]
fn endless_workload_under_positive_ceiling_closes() {
    // A workload that never terminates naturally can only end by the timer
    // firing, and that is always the Close outcome.
    let res = keepalive(2, WorkloadEnd::Ceiling);
    assert_eq!(classify_outcome(&res), Outcome::Close);
}

#[test]
fn immediate_remote_close_without_ceiling_is_lost_not_error() {
    // With no ceiling, a connect-and-idle workload whose remote closes the
    // stream at once concludes cleanly, and the outcome is Lost.
    let res = keepalive(0, WorkloadEnd::Done);
    assert_eq!(res, Ok(()));
    assert_eq!(classify_outcome(&res), Outcome::Lost);
}
