use streebog_gost::curve::Curve;
use streebog_gost::natural::Natural;
use streebog_gost::point::Point;
use streebog_gost::signature::Signature;

const MSG: [u8; 63] = [
    0x32u8, 0x31, 0x30, 0x39, 0x38, 0x37, 0x36, 0x35, 0x34, 0x33, 0x32, 0x31, 0x30, 0x39, 0x38,
    0x37, 0x36, 0x35, 0x34, 0x33, 0x32, 0x31, 0x30, 0x39, 0x38, 0x37, 0x36, 0x35, 0x34, 0x33,
    0x32, 0x31, 0x30, 0x39, 0x38, 0x37, 0x36, 0x35, 0x34, 0x33, 0x32, 0x31, 0x30, 0x39, 0x38,
    0x37, 0x36, 0x35, 0x34, 0x33, 0x32, 0x31, 0x30, 0x39, 0x38, 0x37, 0x36, 0x35, 0x34, 0x33,
    0x32, 0x31, 0x30,
];

fn num(s: &str) -> Natural {
    Natural::from_decimal(s).unwrap()
}

fn point(x: &str, y: &str) -> Point {
    Point::new(num(x), num(y))
}

fn same(a: &Natural, b: &Natural) -> bool {
    a.equals(b)
}

fn same_point(a: &Point, b: &Point) -> bool {
    a.x.equals(&b.x) && a.y.equals(&b.y)
}

fn test_curve() -> Curve {
    let p = num("57896044618658097711785492504343953926634992332820282019728792003956564821041");
    let a = num("7");
    let b = num("43308876546767276905765904595650931995942111794451039583252968842033849580414");
    let m = num("57896044618658097711785492504343953927082934583725450622380973592137631069619");
    let q = num("57896044618658097711785492504343953927082934583725450622380973592137631069619");
    Curve::new(a, b, p, m, q)
}

fn generator() -> Point {
    point("2", "4018974056539037503335449422937059775635739389905545080690979365213431566280")
}

fn private_key() -> Natural {
    num("55441196065363246126355624130324183196576709222340016572108097750006097525544")
}

fn public_key() -> Point {
    point(
        "57520216126176808443631405023338071176630104906313632182896741342206604859403",
        "17614944419213781543809391949654080031942662045363639260709847859438286763994",
    )
}

fn fixed_k() -> Natural {
    num("53854137677348463731403841147996619241504003434302020712960838528893196233395")
}

#[test]
fn signer() {
    let curve = test_curve();
    let sign = Signature::sign(&MSG, &private_key(), &curve, &generator()).unwrap();
    let is_verified = sign.verify(&MSG, &curve, &generator(), &public_key());
    assert!(is_verified);
}

#[test]
fn sign_with_fixed_k_gives_known_pair() {
    let curve = test_curve();
    let sig = Signature::sign_with_k(&MSG, &private_key(), &curve, &generator(), &fixed_k()).unwrap();
    assert!(same(&sig.r, &num("29700980915817952874371204983938256990422752107994319651632687982059210933395")));
    assert!(same(&sig.s, &num("42649802323632402985012927234610210894625209484644501363932714547191150989022")));
    assert!(same(&sig.sign, &num("7700009055330116668189701725960221119646679668561655205551009664233291851487469171308682289733176614522853807768198121138001149542043828794948357802838622")));
    assert!(sig.verify(&MSG, &curve, &generator(), &public_key()));
}

#[test]
fn sign_with_zero_k_fails() {
    let curve = test_curve();
    assert!(Signature::sign_with_k(&MSG, &private_key(), &curve, &generator(), &num("0")).is_none());
}

#[test]
fn verify_rejects_altered_message() {
    let curve = test_curve();
    let sig = Signature::sign_with_k(&MSG, &private_key(), &curve, &generator(), &fixed_k()).unwrap();
    let mut altered = MSG;
    altered[10] ^= 0x01;
    assert!(!sig.verify(&altered, &curve, &generator(), &public_key()));
}

#[test]
fn verify_rejects_altered_r_and_s() {
    let curve = test_curve();
    let sig = Signature::sign_with_k(&MSG, &private_key(), &curve, &generator(), &fixed_k()).unwrap();
    let mut r_bytes = sig.r.to_le_bytes();
    r_bytes[0] ^= 1;
    let bad_r = Signature { sign: sig.sign.clone(), r: Natural::from_le_bytes(r_bytes), s: sig.s.clone() };
    assert!(!bad_r.verify(&MSG, &curve, &generator(), &public_key()));
    let mut s_bytes = sig.s.to_le_bytes();
    s_bytes[0] ^= 1;
    let bad_s = Signature { sign: sig.sign.clone(), r: sig.r.clone(), s: Natural::from_le_bytes(s_bytes) };
    assert!(!bad_s.verify(&MSG, &curve, &generator(), &public_key()));
}

#[test]
fn verify_rejects_out_of_range_scalars() {
    let curve = test_curve();
    let sig = Signature::sign_with_k(&MSG, &private_key(), &curve, &generator(), &fixed_k()).unwrap();
    let zero_r = Signature { sign: sig.sign.clone(), r: num("0"), s: sig.s.clone() };
    assert!(!zero_r.verify(&MSG, &curve, &generator(), &public_key()));
    let big_s = Signature { sign: sig.sign.clone(), r: sig.r.clone(), s: curve.q.clone() };
    assert!(!big_s.verify(&MSG, &curve, &generator(), &public_key()));
}

#[test]
fn verify_rejects_wrong_public_point() {
    let curve = test_curve();
    let sig = Signature::sign_with_k(&MSG, &private_key(), &curve, &generator(), &fixed_k()).unwrap();
    assert!(!sig.verify(&MSG, &curve, &generator(), &generator()));
}

#[test]
fn private_key_times_generator_is_public_key() {
    let curve = test_curve();
    let q = generator().multiply(&private_key(), &curve.p, &curve.a).unwrap();
    assert!(same_point(&q, &public_key()));
}

#[test]
fn generator_has_order_q() {
    let curve = test_curve();
    let r = generator().multiply(&curve.q, &curve.p, &curve.a).unwrap();
    assert!(same_point(&r, &Point::identity()));
}

#[test]
fn double_and_multiples_match_known_points() {
    let curve = test_curve();
    let g = generator();
    let two = g.double(&curve.p, &curve.a).unwrap();
    assert!(same_point(&two, &point(
        "50606877315091697534123154322587307344885629048178308384543595937323387098984",
        "15188977076580603066883910803631226286486513295669640340329199156223789343231",
    )));
    let three = g.multiply(&num("3"), &curve.p, &curve.a).unwrap();
    assert!(same_point(&three, &point(
        "30820401120964062475063156042513005394868965472457617979151158257286813569321",
        "21817265262811493584463354756282059005142983368863900707651219316555936083238",
    )));
    let five = two.add(&three, &curve.p, &curve.a).unwrap();
    assert!(same_point(&five, &point(
        "49585361313223845595105263966186539220089332858272180141225910078234084926637",
        "26165467728014494207547171677441251547016211865253657123426308841314320940585",
    )));
}

#[test]
fn multiples_add_up() {
    let curve = test_curve();
    let g = generator();
    let a = g.multiply(&num("12345"), &curve.p, &curve.a).unwrap();
    let b = g.multiply(&num("67890"), &curve.p, &curve.a).unwrap();
    let sum = a.add(&b, &curve.p, &curve.a).unwrap();
    let direct = g.multiply(&num("80235"), &curve.p, &curve.a).unwrap();
    assert!(same_point(&sum, &direct));
}

#[test]
fn reduced_scalar_gives_same_multiple() {
    let curve = test_curve();
    let g = generator();
    let k = num("98765");
    let k_plus_q = k.plus(&curve.q);
    let a = g.multiply(&k, &curve.p, &curve.a).unwrap();
    let b = g.multiply(&k_plus_q.modulo(&curve.q), &curve.p, &curve.a).unwrap();
    assert!(same_point(&a, &b));
    let c = g.multiply(&k_plus_q, &curve.p, &curve.a).unwrap();
    assert!(same_point(&a, &c));
}

#[test]
fn identity_is_neutral_and_inverse_points_cancel() {
    let curve = test_curve();
    let g = generator();
    let o = Point::identity();
    assert!(same_point(&o.add(&g, &curve.p, &curve.a).unwrap(), &g));
    assert!(same_point(&g.add(&o, &curve.p, &curve.a).unwrap(), &g));
    let neg = Point::new(g.x.clone(), curve.p.minus(&g.y));
    assert!(same_point(&g.add(&neg, &curve.p, &curve.a).unwrap(), &o));
    assert!(same_point(&g.multiply(&num("0"), &curve.p, &curve.a).unwrap(), &o));
}

#[test]
fn doubling_a_point_with_zero_y_has_no_inverse() {
    let curve = test_curve();
    assert!(Point::new(num("5"), num("0")).double(&curve.p, &curve.a).is_none());
}

#[test]
fn natural_arithmetic() {
    let a = num("340282366920938463463374607431768211456");
    let b = num("18446744073709551616");
    assert!(same(&b.times(&b), &a));
    assert!(same(&a.divided_by(&b), &b));
    assert!(same(&a.plus(&num("1")).modulo(&b), &num("1")));
    assert!(same(&num("7").half(), &num("3")));
    assert!(same(&num("3").mod_inverse(&num("7")).unwrap(), &num("5")));
    assert!(num("4").mod_inverse(&num("8")).is_none());
    assert!(num("5").less_than(&num("6")));
    assert!(num("0").is_zero());
    assert_eq!(num("258").to_min_le_bytes(), vec![2, 1]);
    assert_eq!(num("0").to_min_le_bytes(), vec![0]);
    assert!(same(&Natural::from_be_bytes(&vec![1, 2]), &num("258")));
    assert_eq!(num("200").low_byte(), 200);
}

#[test]
fn from_decimal_rejects_non_digits() {
    assert!(Natural::from_decimal("").is_none());
    assert!(Natural::from_decimal("12a").is_none());
    assert!(Natural::from_decimal("+12").is_none());
    assert!(Natural::from_decimal("1_000").is_none());
    assert!(same(&Natural::from_decimal("1000").unwrap(), &Natural::from_u8(250).plus(&Natural::from_u8(250)).plus(&Natural::from_u8(250)).plus(&Natural::from_u8(250))));
}

#[test]
fn random_below_stays_in_range() {
    let bound = num("1000");
    for _ in 0..50 {
        assert!(Natural::random_below(&bound).less_than(&bound));
    }
}

#[test]
fn curve_keeps_its_parameters() {
    let curve = test_curve();
    assert!(same(&curve.a, &num("7")));
    assert!(same(&curve.m, &curve.q));
}

#[test]
fn generator_and_public_key_lie_on_curve() {
    let curve = test_curve();
    assert!(curve.contains(&generator()));
    assert!(curve.contains(&public_key()));
    assert!(!curve.contains(&point("2", "5")));
    assert!(curve.sentinel_is_off_curve());
}

#[test]
fn natural_subtraction() {
    assert!(same(&num("1000").minus(&num("1")), &num("999")));
    assert!(same(&num("65536").minus(&num("65536")), &num("0")));
}

#[test]
fn wire_form_concatenates_little_endian_scalars() {
    let sig = Signature { sign: num("0"), r: num("258"), s: num("3") };
    assert_eq!(sig.to_wire_bytes(), vec![2, 1, 3]);
}

#[test]
fn multiples_of_identity_are_identity() {
    let curve = test_curve();
    let o = Point::identity();
    assert!(same_point(&o.double(&curve.p, &curve.a).unwrap(), &o));
    for k in ["1", "2", "7", "98765"] {
        assert!(same_point(&o.multiply(&num(k), &curve.p, &curve.a).unwrap(), &o));
    }
    assert!(same_point(&o.multiply(&curve.q, &curve.p, &curve.a).unwrap(), &o));
}

#[test]
fn multiplying_by_one_does_not_double() {
    let curve = test_curve();
    let p = Point::new(num("5"), num("0"));
    assert!(same_point(&p.multiply(&num("1"), &curve.p, &curve.a).unwrap(), &p));
}
