use event_generator::bootstrap::{
    count_steps, flip, init, Bootstrap, Seed, Step, Toss, FIRST_SUPPLY, PLAIN_CYCLES,
};
use event_generator::catalog::EngineCounts;
use event_generator::synth::ProductRequest;

fn seed_fully(bootstrap: &mut Bootstrap, accept: bool) -> (EngineCounts, usize) {
    let mut rng = rand::thread_rng();
    let mut counts = EngineCounts { materials: 0, products: 0 };
    let mut steps = 0usize;
    loop {
        match bootstrap.next(counts, &mut rng) {
            Step::Issue(Seed::Material { supply }) => {
                assert!(supply < bootstrap.max_values.max(FIRST_SUPPLY + 1));
                if accept {
                    counts.materials += 1;
                }
            }
            Step::Issue(Seed::Product(p)) => {
                assert!(counts.materials > 0);
                assert!(p.material_id < counts.materials);
                assert!(p.priority < 4);
                assert_eq!(p.position, counts.products + 1);
                if accept {
                    counts.products += 1;
                }
            }
            Step::Skip => assert_eq!(counts.materials, 0),
            Step::Done => break,
        }
        steps += 1;
        assert!(steps <= 100_000);
    }
    (counts, steps)
}

#[test]
fn the_constants_of_the_bootstrap() {
    assert_eq!(FIRST_SUPPLY, 10);
    assert_eq!(PLAIN_CYCLES, 10);
}

#[test]
fn a_cycle_bound_up_to_ten_is_taken_as_it_is() {
    for cycles in 0..=10usize {
        assert_eq!(count_steps(cycles, 987_654), cycles);
        assert_eq!(count_steps(cycles, 0), cycles);
    }
}

#[test]
fn a_larger_cycle_bound_is_replaced_by_the_reduced_draw() {
    assert_eq!(count_steps(11, 0), 0);
    assert_eq!(count_steps(11, 10), 10);
    assert_eq!(count_steps(11, 11), 0);
    assert_eq!(count_steps(50, 1_234), 34);
    assert_eq!(count_steps(usize::MAX, 77), 77);
}

#[test]
fn an_even_coin_seeds_a_material() {
    assert!(flip(0));
    assert!(!flip(1));
    assert!(flip(254));
    assert!(!flip(255));
}

#[test]
fn a_material_seed_bounds_its_supply() {
    assert_eq!(Seed::material(5_250, 1000), Seed::Material { supply: 250 });
    assert_eq!(Seed::material(usize::MAX, 1), Seed::Material { supply: 0 });
}

#[test]
fn a_product_seed_is_bound_to_an_existing_material() {
    let counts = EngineCounts { materials: 3, products: 4 };
    assert_eq!(
        Seed::product(counts, 700, 8, 6, 1000),
        Step::Issue(Seed::Product(ProductRequest {
            material_id: 2,
            material_amount: 21,
            priority: 2,
            position: 5,
        }))
    );
}

#[test]
fn a_product_seed_without_a_material_is_skipped() {
    let counts = EngineCounts { materials: 0, products: 4 };
    assert_eq!(Seed::product(counts, 700, 8, 6, 1000), Step::Skip);
}

#[test]
fn init_takes_a_small_cycle_bound_as_it_is() {
    let mut rng = rand::thread_rng();
    for cycles in 0..=10usize {
        let bootstrap = init(&mut rng, 1000, cycles);
        assert_eq!(bootstrap, Bootstrap { fresh: true, remaining: cycles, max_values: 1000 });
    }
}

#[test]
fn init_draws_below_a_large_cycle_bound() {
    let mut rng = rand::thread_rng();
    for _ in 0..200 {
        let bootstrap = init(&mut rng, 1000, 11);
        assert!(bootstrap.fresh);
        assert!(bootstrap.remaining < 11);
        assert_eq!(bootstrap.max_values, 1000);
    }
}

#[test]
fn the_first_step_hands_out_the_first_material() {
    let mut rng = rand::thread_rng();
    let mut bootstrap = init(&mut rng, 1000, 3);
    let counts = EngineCounts { materials: 0, products: 0 };
    assert_eq!(
        bootstrap.next(counts, &mut rng),
        Step::Issue(Seed::Material { supply: 10 })
    );
    assert_eq!(bootstrap, Bootstrap { fresh: false, remaining: 3, max_values: 1000 });
}

#[test]
fn a_finished_bootstrap_stays_finished() {
    let mut rng = rand::thread_rng();
    let mut bootstrap = Bootstrap { fresh: false, remaining: 0, max_values: 1000 };
    let counts = EngineCounts { materials: 1, products: 0 };
    for _ in 0..5 {
        assert_eq!(bootstrap.next(counts, &mut rng), Step::Done);
        assert_eq!(bootstrap, Bootstrap { fresh: false, remaining: 0, max_values: 1000 });
    }
}

#[test]
fn a_bootstrap_of_no_cycles_creates_one_material() {
    let mut rng = rand::thread_rng();
    let mut bootstrap = init(&mut rng, 1000, 0);
    let (counts, steps) = seed_fully(&mut bootstrap, true);
    assert_eq!(counts, EngineCounts { materials: 1, products: 0 });
    assert_eq!(steps, 1);
}

#[test]
fn a_bootstrap_of_five_cycles_stays_within_its_bounds() {
    let mut rng = rand::thread_rng();
    for _ in 0..300 {
        let mut bootstrap = init(&mut rng, 1000, 5);
        let (counts, steps) = seed_fully(&mut bootstrap, true);
        assert_eq!(steps, 6);
        assert!(counts.materials >= 1 && counts.materials <= 6);
        assert!(counts.products <= 5);
        assert_eq!(counts.materials + counts.products, 6);
    }
}

#[test]
fn a_bootstrap_of_many_cycles_takes_fewer_steps_than_cycles() {
    let mut rng = rand::thread_rng();
    for _ in 0..100 {
        let mut bootstrap = init(&mut rng, 1000, 40);
        let (counts, steps) = seed_fully(&mut bootstrap, true);
        assert!(steps <= 40);
        assert_eq!(counts.materials + counts.products, steps);
    }
}

#[test]
fn a_bootstrap_goes_on_when_the_engine_refuses_everything() {
    let mut rng = rand::thread_rng();
    for _ in 0..100 {
        let mut bootstrap = init(&mut rng, 1000, 8);
        let (counts, steps) = seed_fully(&mut bootstrap, false);
        assert_eq!(counts, EngineCounts { materials: 0, products: 0 });
        assert_eq!(steps, 9);
    }
}

#[test]
fn a_recorded_bootstrap_hands_out_what_its_draws_say() {
    let mut bootstrap = Bootstrap { fresh: true, remaining: 3, max_values: 1000 };
    let mut counts = EngineCounts { materials: 0, products: 0 };
    let ignored = Toss { coin: 1, first: 77, second: 78, third: 79 };
    assert_eq!(bootstrap.replay(counts, ignored), Step::Issue(Seed::Material { supply: 10 }));
    assert_eq!(bootstrap, Bootstrap { fresh: false, remaining: 3, max_values: 1000 });
    counts.materials = 1;

    let heads = Toss { coin: 4, first: 2_345, second: 0, third: 0 };
    assert_eq!(bootstrap.replay(counts, heads), Step::Issue(Seed::Material { supply: 345 }));
    assert_eq!(bootstrap.remaining, 2);
    counts.materials = 2;

    let tails = Toss { coin: 9, first: 1_100, second: 5, third: 6 };
    assert_eq!(
        bootstrap.replay(counts, tails),
        Step::Issue(Seed::Product(ProductRequest {
            material_id: 1,
            material_amount: 3,
            priority: 2,
            position: 1,
        }))
    );
    assert_eq!(bootstrap.remaining, 1);
    counts.products = 1;

    assert_eq!(
        bootstrap.replay(counts, tails),
        Step::Issue(Seed::Product(ProductRequest {
            material_id: 1,
            material_amount: 3,
            priority: 2,
            position: 2,
        }))
    );
    assert_eq!(bootstrap.remaining, 0);
    assert_eq!(bootstrap.replay(counts, tails), Step::Done);
    assert_eq!(bootstrap.replay(counts, heads), Step::Done);
    assert_eq!(bootstrap, Bootstrap { fresh: false, remaining: 0, max_values: 1000 });
}

#[test]
fn a_recorded_product_step_without_material_is_skipped_and_counted() {
    let mut bootstrap = Bootstrap { fresh: false, remaining: 2, max_values: 1000 };
    let counts = EngineCounts { materials: 0, products: 0 };
    let tails = Toss { coin: 1, first: 1_100, second: 5, third: 6 };
    assert_eq!(bootstrap.replay(counts, tails), Step::Skip);
    assert_eq!(bootstrap.remaining, 1);
    assert_eq!(bootstrap.replay(counts, tails), Step::Skip);
    assert_eq!(bootstrap.replay(counts, tails), Step::Done);
}

#[test]
fn two_recorded_bootstraps_on_the_same_draws_agree() {
    let tosses = [
        Toss { coin: 0, first: 10, second: 20, third: 30 },
        Toss { coin: 3, first: 999, second: 1, third: 2 },
        Toss { coin: 8, first: 5_000, second: 3, third: 4 },
        Toss { coin: 5, first: 640, second: 7, third: 1 },
    ];
    let mut one = Bootstrap { fresh: true, remaining: 3, max_values: 500 };
    let mut other = one;
    let counts = EngineCounts { materials: 2, products: 1 };
    for toss in tosses {
        assert_eq!(one.replay(counts, toss), other.replay(counts, toss));
        assert_eq!(one, other);
    }
    assert_eq!(one.replay(counts, tosses[0]), Step::Done);
}

#[test]
fn a_bootstrap_of_no_cycles_needs_no_bound() {
    let mut rng = rand::thread_rng();
    let mut bootstrap = init(&mut rng, 0, 0);
    assert_eq!(bootstrap, Bootstrap { fresh: true, remaining: 0, max_values: 0 });
    let counts = EngineCounts { materials: 0, products: usize::MAX };
    assert_eq!(bootstrap.next(counts, &mut rng), Step::Issue(Seed::Material { supply: 10 }));
    assert_eq!(bootstrap.next(counts, &mut rng), Step::Done);
}

#[test]
fn a_bootstrap_of_two_cycles_takes_exactly_three_steps() {
    let mut bootstrap = Bootstrap { fresh: true, remaining: 2, max_values: 100 };
    let counts = EngineCounts { materials: 1, products: 0 };
    let heads = Toss { coin: 2, first: 250, second: 0, third: 0 };
    assert_eq!(bootstrap.replay(counts, heads), Step::Issue(Seed::Material { supply: 10 }));
    assert_eq!(bootstrap.replay(counts, heads), Step::Issue(Seed::Material { supply: 50 }));
    assert_eq!(bootstrap.replay(counts, heads), Step::Issue(Seed::Material { supply: 50 }));
    assert_eq!(bootstrap.replay(counts, heads), Step::Done);
}
