use goldilocks_field::field::GoldilocksField;
use goldilocks_field::model::MODULUS;
use lambdaworks_math::field::errors::FieldError;

#[test]
fn get_generator() {
    assert_eq!(GoldilocksField::generator(), 7);
}

#[test]
fn test_add() {
    let a: u64 = 7;
    let b: u64 = 10;
    assert_eq!((GoldilocksField::add(&a, &b)), 17);
}

#[test]
fn max_order_plus_1_is_0() {
    let a: u64 = MODULUS - 1;
    let b: u64 = 1;
    assert_eq!(GoldilocksField::add(&a, &b), 0);
}

#[test]
fn test_sub() {
    let a: u64 = 5;
    let b: u64 = 3;
    assert_eq!(GoldilocksField::sub(&a, &b), 2);
}

#[test]
fn test_neg() {
    let a: u64 = 5;
    let b: u64 = 3;
    assert_eq!(GoldilocksField::mul(&a, &b), 15);
}

#[test]
fn test_mul() {
    let a: u64 = 5;
    let b: u64 = 3;
    assert_eq!(GoldilocksField::mul(&a, &b), 15);
}

#[test]
fn mul_order_minus_1() {
    let a: u64 = MODULUS - 1;
    let b: u64 = MODULUS - 1;
    assert_eq!(GoldilocksField::mul(&a, &b), 1);
}

#[test]
fn inv_0_error() {
    let a: u64 = 0;
    let result = GoldilocksField::inv(&a);
    assert!(matches!(result, Err(FieldError::InvZeroError)));
}

#[test]
fn inv_2() {
    let a: u64 = 2;
    let inverse_result = GoldilocksField::inv(&a).unwrap();

    // a * inv(a) is congruent to 1 modulo MODULUS
    let product = GoldilocksField::mul(&a, &inverse_result);
    assert_eq!(product, 1);
}

#[test]
fn pow_2_3() {
    assert_eq!(
        GoldilocksField::pow(&GoldilocksField::new(2), 3),
        GoldilocksField::new(8)
    )
}

#[test]
fn pow_p_minus_1() {
    assert_eq!(
        GoldilocksField::pow(&GoldilocksField::new(2), MODULUS - 1),
        GoldilocksField::new(1)
    )
}

#[test]
fn div_1() {
    assert_eq!(
        GoldilocksField::div(&GoldilocksField::new(2), &GoldilocksField::new(1)).unwrap(),
        GoldilocksField::new(2)
    )
}

#[test]
fn div_4_2() {
    assert_eq!(
        GoldilocksField::div(&GoldilocksField::new(4), &GoldilocksField::new(2)).unwrap(),
        GoldilocksField::new(2)
    )
}

#[test]
fn div_4_3() {
    let quotient =
        GoldilocksField::div(&GoldilocksField::new(4), &GoldilocksField::new(3)).unwrap();
    assert_eq!(
        GoldilocksField::mul(&quotient, &GoldilocksField::new(3)),
        GoldilocksField::new(4)
    )
}

#[test]
fn two_plus_its_additive_inv_is_0() {
    let two = GoldilocksField::new(2);
    assert_eq!(GoldilocksField::sub(&two, &two), GoldilocksField::new(0))
}

#[test]
fn four_minus_three_is_1() {
    let four = GoldilocksField::new(4);
    let three = GoldilocksField::new(3);

    assert_eq!(GoldilocksField::sub(&four, &three), GoldilocksField::new(1))
}

#[test]
fn zero_minus_1_is_order_minus_1() {
    let zero = GoldilocksField::new(0);
    let one = GoldilocksField::new(1);

    assert_eq!(
        GoldilocksField::sub(&zero, &one),
        GoldilocksField::new(MODULUS - 1)
    )
}

#[test]
fn zero_constructor_returns_zero() {
    assert_eq!(GoldilocksField::new(0), GoldilocksField::new(0));
}

#[test]
fn creating_a_field_element_from_its_representative_returns_the_same_element_1() {
    let change: u64 = 1;
    let f1 = GoldilocksField::from(MODULUS + change);
    let f2 = GoldilocksField::from(GoldilocksField::representative(&f1.value));
    assert_eq!(f1, f2);
}

#[test]
fn creating_a_field_element_from_its_representative_returns_the_same_element_2() {
    let change: u64 = 8;
    let f1 = GoldilocksField::from(MODULUS + change);
    let f2 = GoldilocksField::from(GoldilocksField::representative(&f1.value));
    assert_eq!(f1, f2);
}

#[test]
fn neg_of_five_is_order_minus_five() {
    assert_eq!(GoldilocksField::neg(&5), MODULUS - 5);
}

#[test]
fn neg_of_zero_is_zero() {
    assert_eq!(GoldilocksField::neg(&0), 0);
    assert_eq!(GoldilocksField::neg(&MODULUS), 0);
}

#[test]
fn add_of_two_large_words_does_not_wrap() {
    // (p - 1) + (p - 1) = 2p - 2, which is p - 2 modulo p
    assert_eq!(
        GoldilocksField::add(&(MODULUS - 1), &(MODULUS - 1)),
        MODULUS - 2
    );
    // 2 * (2^64 - 1) = 2p + 2^33 - 4
    assert_eq!(GoldilocksField::add(&u64::MAX, &u64::MAX), (1u64 << 33) - 4);
}

#[test]
fn mul_of_two_large_words_does_not_wrap() {
    // 2^64 - 1 is 2^32 - 2 modulo p; its square is 2^64 - 2^34 + 4,
    // which is p - 3 * 2^32 + 3
    let expected: u64 = MODULUS - 3 * (1u64 << 32) + 3;
    assert_eq!(GoldilocksField::mul(&u64::MAX, &u64::MAX), expected);
}

#[test]
fn sub_of_unreduced_words_is_canonical() {
    // 0 - (2^64 - 1) = -(2^32 - 2) modulo p
    assert_eq!(
        GoldilocksField::sub(&0, &u64::MAX),
        MODULUS - ((1u64 << 32) - 2)
    );
    assert_eq!(GoldilocksField::sub(&MODULUS, &MODULUS), 0);
    assert_eq!(GoldilocksField::sub(&u64::MAX, &0), (1u64 << 32) - 2);
}

#[test]
fn operations_on_the_modulus_itself() {
    assert_eq!(GoldilocksField::add(&MODULUS, &0), 0);
    assert_eq!(GoldilocksField::mul(&MODULUS, &12345), 0);
    assert_eq!(GoldilocksField::from_u64(MODULUS), 0);
    assert_eq!(GoldilocksField::from_u64(MODULUS + 5), 5);
    assert_eq!(GoldilocksField::from_base_type(u64::MAX), (1u64 << 32) - 2);
    assert_eq!(GoldilocksField::new(MODULUS - 1), MODULUS - 1);
    assert_eq!(GoldilocksField::from(MODULUS).value, 0);
    assert_eq!(GoldilocksField::from(17).value, 17);
}

#[test]
fn zero_and_one_are_the_identities() {
    assert_eq!(GoldilocksField::zero(), 0);
    assert_eq!(GoldilocksField::one(), 1);
    let a: u64 = 0x1234_5678_9abc_def0;
    assert_eq!(GoldilocksField::add(&a, &GoldilocksField::zero()), a);
    assert_eq!(GoldilocksField::mul(&a, &GoldilocksField::one()), a);
}

#[test]
fn representative_returns_the_word_as_held() {
    assert_eq!(GoldilocksField::representative(&5), 5);
    assert_eq!(GoldilocksField::representative(&u64::MAX), u64::MAX);
}

#[test]
fn eq_compares_residues() {
    assert!(GoldilocksField::eq(&0, &MODULUS));
    assert!(GoldilocksField::eq(&5, &(MODULUS + 5)));
    assert!(GoldilocksField::eq(&7, &7));
    assert!(!GoldilocksField::eq(&7, &8));
    assert!(!GoldilocksField::eq(&0, &(MODULUS - 1)));
}

#[test]
fn field_bit_size_is_64() {
    assert_eq!(GoldilocksField::field_bit_size(), 64);
}

#[test]
fn pow_edge_exponents() {
    assert_eq!(GoldilocksField::pow(&5, 0), 1);
    assert_eq!(GoldilocksField::pow(&0, 0), 1);
    assert_eq!(GoldilocksField::pow(&0, 5), 0);
    assert_eq!(GoldilocksField::pow(&5, 1), 5);
    assert_eq!(GoldilocksField::pow(&(MODULUS + 5), 1), 5);
    assert_eq!(GoldilocksField::pow(&3, 4), 81);
    // 2^64 = 2^32 - 1 modulo p
    assert_eq!(GoldilocksField::pow(&2, 64), (1u64 << 32) - 1);
    // 2^96 = -1 modulo p
    assert_eq!(GoldilocksField::pow(&2, 96), MODULUS - 1);
    assert_eq!(GoldilocksField::pow(&2, 192), 1);
}

#[test]
fn fermat_on_sample_elements() {
    let samples: [u64; 6] = [1, 2, 7, 0xdead_beef, MODULUS - 1, u64::MAX];
    for a in samples.iter() {
        assert_eq!(GoldilocksField::pow(a, MODULUS - 1), 1);
    }
}

#[test]
fn generator_has_full_order() {
    let g = GoldilocksField::generator();
    let n: u64 = MODULUS - 1;
    assert_eq!(GoldilocksField::pow(&g, n), 1);
    assert_eq!(GoldilocksField::pow(&g, n / 2), MODULUS - 1);
    assert_eq!(GoldilocksField::pow(&g, n / 3), 18446744065119617025);
    assert_eq!(GoldilocksField::pow(&g, n / 5), 1373043270956696022);
    assert_eq!(GoldilocksField::pow(&g, n / 17), 16301593560560007290);
    assert_eq!(GoldilocksField::pow(&g, n / 257), 995085315851368103);
    assert_eq!(GoldilocksField::pow(&g, n / 65537), 8478886009461009681);
}

#[test]
fn inverse_times_element_is_one() {
    let samples: [u64; 6] = [1, 2, 3, 0xdead_beef, MODULUS - 1, u64::MAX];
    for a in samples.iter() {
        let inverse = GoldilocksField::inv(a).unwrap();
        assert!(inverse < MODULUS);
        assert_eq!(GoldilocksField::mul(a, &inverse), 1);
    }
    // the inverse of 2 is (p + 1) / 2
    assert_eq!(GoldilocksField::inv(&2).unwrap(), 0x7fff_ffff_8000_0001);
    assert_eq!(GoldilocksField::inv(&1).unwrap(), 1);
    assert_eq!(GoldilocksField::inv(&(MODULUS - 1)).unwrap(), MODULUS - 1);
}

#[test]
fn inverse_of_a_multiple_of_the_order_is_an_error() {
    assert!(matches!(
        GoldilocksField::inv(&MODULUS),
        Err(FieldError::InvZeroError)
    ));
}

#[test]
fn division_by_zero_is_an_error() {
    let samples: [u64; 4] = [0, 1, 4, MODULUS - 1];
    for a in samples.iter() {
        assert!(matches!(
            GoldilocksField::div(a, &0),
            Err(FieldError::InvZeroError)
        ));
        assert!(matches!(
            GoldilocksField::div(a, &MODULUS),
            Err(FieldError::InvZeroError)
        ));
    }
}

#[test]
fn division_is_undone_by_multiplication() {
    let a: u64 = 0x0123_4567_89ab_cdef;
    let b: u64 = 0xfedc_ba98_7654_3210;
    let quotient = GoldilocksField::div(&a, &b).unwrap();
    assert_eq!(
        GoldilocksField::mul(&quotient, &b),
        GoldilocksField::from_u64(a)
    );
    assert_eq!(GoldilocksField::div(&0, &b).unwrap(), 0);
    assert_eq!(GoldilocksField::div(&b, &b).unwrap(), 1);
}

#[test]
fn field_axioms_on_sample_elements() {
    let samples: [u64; 7] = [
        0,
        1,
        5,
        0xffff_ffff,
        0x1234_5678_9abc_def0,
        MODULUS - 2,
        MODULUS - 1,
    ];
    for a in samples.iter() {
        assert_eq!(GoldilocksField::add(a, &0), *a);
        assert_eq!(GoldilocksField::mul(a, &1), *a);
        assert_eq!(GoldilocksField::add(a, &GoldilocksField::neg(a)), 0);
        for b in samples.iter() {
            assert_eq!(GoldilocksField::add(a, b), GoldilocksField::add(b, a));
            assert_eq!(GoldilocksField::mul(a, b), GoldilocksField::mul(b, a));
            assert_eq!(
                GoldilocksField::sub(a, b),
                GoldilocksField::add(a, &GoldilocksField::neg(b))
            );
            for c in samples.iter() {
                assert_eq!(
                    GoldilocksField::add(&GoldilocksField::add(a, b), c),
                    GoldilocksField::add(a, &GoldilocksField::add(b, c))
                );
                assert_eq!(
                    GoldilocksField::mul(&GoldilocksField::mul(a, b), c),
                    GoldilocksField::mul(a, &GoldilocksField::mul(b, c))
                );
                assert_eq!(
                    GoldilocksField::mul(a, &GoldilocksField::add(b, c)),
                    GoldilocksField::add(
                        &GoldilocksField::mul(a, b),
                        &GoldilocksField::mul(a, c)
                    )
                );
            }
        }
    }
}
