use arqonhpo::probe::PrimeIndexProbe;

#[test]
fn test_sieve_of_eratosthenes() {
    let primes = PrimeIndexProbe::sieve_of_eratosthenes(30);
    assert_eq!(primes, vec![2, 3, 5, 7, 11, 13, 17, 19, 23, 29]);
}

#[test]
fn test_first_n_primes() {
    let primes = PrimeIndexProbe::first_n_primes(5);
    assert_eq!(primes, vec![2, 3, 5, 7, 11]);
}

#[test]
fn sieve_small_limits() {
    assert!(PrimeIndexProbe::sieve_of_eratosthenes(0).is_empty());
    assert!(PrimeIndexProbe::sieve_of_eratosthenes(1).is_empty());
    assert_eq!(PrimeIndexProbe::sieve_of_eratosthenes(2), vec![2]);
    assert_eq!(PrimeIndexProbe::sieve_of_eratosthenes(49), vec![2, 3, 5, 7, 11, 13, 17, 19, 23, 29, 31, 37, 41, 43, 47]);
}

#[test]
fn first_n_primes_larger() {
    assert!(PrimeIndexProbe::first_n_primes(0).is_empty());
    let primes = PrimeIndexProbe::first_n_primes(100);
    assert_eq!(primes.len(), 100);
    assert_eq!(primes[99], 541);
}

#[test]
fn probe_settings() {
    assert_eq!(PrimeIndexProbe::new().max_primes, None);
    assert_eq!(PrimeIndexProbe::with_max_primes(7).max_primes, Some(7));
}
