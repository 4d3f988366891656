use numconv::{
    calculate_utm_zone, get_mgrs_latitude_band, get_utm_zone_from_lat_lon, Degrees, UTMZoneError,
};

#[test]
fn zone_in_the_northern_hemisphere() {
    assert_eq!(
        calculate_utm_zone(Degrees::exactly(40), Degrees::exactly(-75)),
        Ok((18, 'T'))
    );
}

#[test]
fn zone_in_the_southern_hemisphere() {
    assert_eq!(
        calculate_utm_zone(Degrees::exactly(-33), Degrees::exactly(151)),
        Ok((56, 'H'))
    );
}

#[test]
fn zone_over_southwest_norway() {
    assert_eq!(
        calculate_utm_zone(Degrees::exactly(60), Degrees::exactly(5)),
        Ok((32, 'V'))
    );
}

#[test]
fn zone_over_svalbard() {
    assert_eq!(
        calculate_utm_zone(Degrees::exactly(72), Degrees::exactly(7)),
        Ok((31, 'X'))
    );
}

#[test]
fn zone_between_britain_and_norway() {
    assert_eq!(
        calculate_utm_zone(Degrees::exactly(57), Degrees::exactly(1)),
        Ok((31, 'V'))
    );
}

#[test]
fn zone_on_the_equator() {
    assert_eq!(
        calculate_utm_zone(Degrees::exactly(0), Degrees::exactly(33)),
        Ok((36, 'N'))
    );
}

#[test]
fn latitude_84_has_no_band() {
    assert_eq!(
        calculate_utm_zone(Degrees::exactly(84), Degrees::exactly(15)),
        Err(UTMZoneError::InvalidLatitude(Degrees::exactly(84)))
    );
    assert_eq!(
        get_mgrs_latitude_band(Degrees::exactly(84)),
        Err(UTMZoneError::InvalidLatitude(Degrees::exactly(84)))
    );
}

#[test]
fn latitude_beyond_the_pole_is_refused() {
    assert_eq!(
        calculate_utm_zone(Degrees::past(90), Degrees::exactly(0)),
        Err(UTMZoneError::InvalidLatitude(Degrees::past(90)))
    );
    assert_eq!(
        calculate_utm_zone(Degrees::past(-91), Degrees::exactly(0)),
        Err(UTMZoneError::InvalidLatitude(Degrees::past(-91)))
    );
    assert_eq!(
        calculate_utm_zone(Degrees::exactly(-91), Degrees::exactly(0)),
        Err(UTMZoneError::InvalidLatitude(Degrees::exactly(-91)))
    );
}

#[test]
fn longitude_beyond_the_date_line_is_refused() {
    assert_eq!(
        calculate_utm_zone(Degrees::exactly(0), Degrees::exactly(181)),
        Err(UTMZoneError::InvalidLongitude(Degrees::exactly(181)))
    );
    assert_eq!(
        calculate_utm_zone(Degrees::exactly(0), Degrees::past(180)),
        Err(UTMZoneError::InvalidLongitude(Degrees::past(180)))
    );
    assert_eq!(
        calculate_utm_zone(Degrees::exactly(0), Degrees::past(-181)),
        Err(UTMZoneError::InvalidLongitude(Degrees::past(-181)))
    );
}

#[test]
fn latitude_is_checked_before_longitude() {
    assert_eq!(
        calculate_utm_zone(Degrees::exactly(95), Degrees::exactly(200)),
        Err(UTMZoneError::InvalidLatitude(Degrees::exactly(95)))
    );
}

#[test]
fn longitude_is_checked_before_the_band() {
    assert_eq!(
        calculate_utm_zone(Degrees::exactly(85), Degrees::exactly(200)),
        Err(UTMZoneError::InvalidLongitude(Degrees::exactly(200)))
    );
    assert_eq!(
        calculate_utm_zone(Degrees::exactly(-85), Degrees::exactly(-200)),
        Err(UTMZoneError::InvalidLongitude(Degrees::exactly(-200)))
    );
}

#[test]
fn latitude_with_a_zone_but_no_band_is_refused() {
    assert_eq!(
        calculate_utm_zone(Degrees::exactly(85), Degrees::exactly(0)),
        Err(UTMZoneError::InvalidLatitude(Degrees::exactly(85)))
    );
    assert_eq!(
        calculate_utm_zone(Degrees::exactly(90), Degrees::exactly(0)),
        Err(UTMZoneError::InvalidLatitude(Degrees::exactly(90)))
    );
    assert_eq!(
        calculate_utm_zone(Degrees::past(-81), Degrees::exactly(0)),
        Err(UTMZoneError::InvalidLatitude(Degrees::past(-81)))
    );
    assert_eq!(
        calculate_utm_zone(Degrees::exactly(-90), Degrees::exactly(0)),
        Err(UTMZoneError::InvalidLatitude(Degrees::exactly(-90)))
    );
}

#[test]
fn ends_of_the_band_range() {
    assert_eq!(get_mgrs_latitude_band(Degrees::exactly(-80)), Ok('C'));
    assert_eq!(get_mgrs_latitude_band(Degrees::past(83)), Ok('X'));
    assert_eq!(
        get_mgrs_latitude_band(Degrees::past(-81)),
        Err(UTMZoneError::InvalidLatitude(Degrees::past(-81)))
    );
    assert_eq!(
        get_mgrs_latitude_band(Degrees::past(84)),
        Err(UTMZoneError::InvalidLatitude(Degrees::past(84)))
    );
}

#[test]
fn bands_are_eight_degrees_high() {
    let letters = [
        'C', 'D', 'E', 'F', 'G', 'H', 'J', 'K', 'L', 'M', 'N', 'P', 'Q', 'R', 'S', 'T', 'U', 'V',
        'W', 'X',
    ];
    for (index, letter) in letters.iter().enumerate() {
        let south = -80 + 8 * index as i64;
        assert_eq!(get_mgrs_latitude_band(Degrees::exactly(south)), Ok(*letter));
        assert_eq!(get_mgrs_latitude_band(Degrees::past(south)), Ok(*letter));
        assert_eq!(
            get_mgrs_latitude_band(Degrees::past(south + 7)),
            Ok(*letter)
        );
    }
}

#[test]
fn last_band_reaches_up_to_84_degrees() {
    assert_eq!(get_mgrs_latitude_band(Degrees::exactly(72)), Ok('X'));
    assert_eq!(get_mgrs_latitude_band(Degrees::exactly(79)), Ok('X'));
    assert_eq!(get_mgrs_latitude_band(Degrees::exactly(80)), Ok('X'));
    assert_eq!(get_mgrs_latitude_band(Degrees::exactly(82)), Ok('X'));
    assert_eq!(get_mgrs_latitude_band(Degrees::past(83)), Ok('X'));
    assert_eq!(
        calculate_utm_zone(Degrees::exactly(82), Degrees::exactly(15)),
        Ok((33, 'X'))
    );
}

#[test]
fn band_is_never_i_or_o() {
    for whole in -80i64..84 {
        for fraction in [false, true] {
            let band = get_mgrs_latitude_band(Degrees { whole, fraction }).unwrap();
            assert!(('C'..='X').contains(&band));
            assert_ne!(band, 'I');
            assert_ne!(band, 'O');
        }
    }
}

#[test]
fn zones_are_six_degrees_wide() {
    let equator = Degrees::exactly(0);
    assert_eq!(calculate_utm_zone(equator, Degrees::exactly(-180)), Ok((1, 'N')));
    assert_eq!(calculate_utm_zone(equator, Degrees::past(-175)), Ok((1, 'N')));
    assert_eq!(calculate_utm_zone(equator, Degrees::exactly(-174)), Ok((2, 'N')));
    assert_eq!(calculate_utm_zone(equator, Degrees::past(-1)), Ok((30, 'N')));
    assert_eq!(calculate_utm_zone(equator, Degrees::exactly(0)), Ok((31, 'N')));
    assert_eq!(calculate_utm_zone(equator, Degrees::past(179)), Ok((60, 'N')));
    for zone in 1u32..=60 {
        let west = -180 + 6 * (zone as i64 - 1);
        assert_eq!(
            calculate_utm_zone(equator, Degrees::exactly(west)),
            Ok((zone, 'N'))
        );
        assert_eq!(
            calculate_utm_zone(equator, Degrees::past(west + 5)),
            Ok((zone, 'N'))
        );
    }
}

#[test]
fn longitude_180_falls_in_zone_one() {
    assert_eq!(
        calculate_utm_zone(Degrees::exactly(0), Degrees::exactly(180)),
        Ok((1, 'N'))
    );
}

#[test]
fn limits_of_the_zone_over_southwest_norway() {
    let inside = Degrees::exactly(60);
    assert_eq!(calculate_utm_zone(inside, Degrees::past(2)), Ok((32, 'V')));
    assert_eq!(calculate_utm_zone(inside, Degrees::past(5)), Ok((32, 'V')));
    assert_eq!(calculate_utm_zone(inside, Degrees::exactly(2)), Ok((31, 'V')));
    assert_eq!(calculate_utm_zone(inside, Degrees::exactly(6)), Ok((32, 'V')));
    let east = Degrees::exactly(3);
    assert_eq!(calculate_utm_zone(Degrees::exactly(55), east), Ok((31, 'U')));
    assert_eq!(calculate_utm_zone(Degrees::past(55), east), Ok((32, 'U')));
    assert_eq!(calculate_utm_zone(Degrees::past(63), east), Ok((32, 'V')));
    assert_eq!(calculate_utm_zone(Degrees::exactly(64), east), Ok((31, 'W')));
}

#[test]
fn limits_of_the_zones_over_svalbard() {
    let north = Degrees::exactly(75);
    assert_eq!(calculate_utm_zone(north, Degrees::past(5)), Ok((31, 'X')));
    assert_eq!(calculate_utm_zone(north, Degrees::exactly(6)), Ok((31, 'X')));
    assert_eq!(calculate_utm_zone(north, Degrees::past(8)), Ok((31, 'X')));
    assert_eq!(calculate_utm_zone(north, Degrees::exactly(9)), Ok((33, 'X')));
    assert_eq!(calculate_utm_zone(north, Degrees::past(11)), Ok((33, 'X')));
    assert_eq!(calculate_utm_zone(north, Degrees::exactly(12)), Ok((33, 'X')));
    assert_eq!(calculate_utm_zone(north, Degrees::exactly(18)), Ok((33, 'X')));
    assert_eq!(calculate_utm_zone(north, Degrees::past(20)), Ok((33, 'X')));
    assert_eq!(calculate_utm_zone(north, Degrees::exactly(21)), Ok((35, 'X')));
    assert_eq!(calculate_utm_zone(north, Degrees::past(23)), Ok((35, 'X')));
    assert_eq!(calculate_utm_zone(north, Degrees::exactly(24)), Ok((35, 'X')));
    assert_eq!(calculate_utm_zone(north, Degrees::exactly(30)), Ok((35, 'X')));
    assert_eq!(calculate_utm_zone(north, Degrees::past(32)), Ok((35, 'X')));
    assert_eq!(calculate_utm_zone(north, Degrees::exactly(33)), Ok((36, 'X')));
    let below = Degrees::exactly(71);
    assert_eq!(calculate_utm_zone(below, Degrees::exactly(7)), Ok((32, 'W')));
    assert_eq!(calculate_utm_zone(below, Degrees::exactly(10)), Ok((32, 'W')));
    assert_eq!(calculate_utm_zone(below, Degrees::exactly(22)), Ok((34, 'W')));
    let just_above = Degrees::past(71);
    assert_eq!(calculate_utm_zone(just_above, Degrees::exactly(7)), Ok((31, 'W')));
    assert_eq!(calculate_utm_zone(just_above, Degrees::exactly(10)), Ok((33, 'W')));
    assert_eq!(calculate_utm_zone(just_above, Degrees::exactly(22)), Ok((35, 'W')));
}

#[test]
fn zone_number_stays_between_1_and_60() {
    for lat in -80i64..84 {
        for lon in -180i64..180 {
            for fraction in [false, true] {
                let (zone, _) = calculate_utm_zone(
                    Degrees { whole: lat, fraction },
                    Degrees { whole: lon, fraction },
                )
                .unwrap();
                assert!((1..=60).contains(&zone));
            }
        }
    }
}

#[test]
fn every_failure_names_a_coordinate() {
    for lat in -95i64..95 {
        for lon in -185i64..185 {
            let latitude = Degrees::past(lat);
            let longitude = Degrees::exactly(lon);
            match calculate_utm_zone(latitude, longitude) {
                Ok(_) => {}
                Err(UTMZoneError::InvalidLatitude(value)) => assert_eq!(value, latitude),
                Err(UTMZoneError::InvalidLongitude(value)) => assert_eq!(value, longitude),
                Err(UTMZoneError::CalculationError(text)) => {
                    panic!("no coordinate named: {}", text)
                }
            }
        }
    }
}

#[test]
fn label_is_zone_number_then_band() {
    assert_eq!(
        get_utm_zone_from_lat_lon(Degrees::exactly(40), Degrees::exactly(-75)),
        Ok("18T".to_string())
    );
    assert_eq!(
        get_utm_zone_from_lat_lon(Degrees::exactly(-80), Degrees::exactly(-180)),
        Ok("1C".to_string())
    );
    assert_eq!(
        get_utm_zone_from_lat_lon(Degrees::past(83), Degrees::past(179)),
        Ok("60X".to_string())
    );
    assert_eq!(
        get_utm_zone_from_lat_lon(Degrees::exactly(60), Degrees::exactly(5)),
        Ok("32V".to_string())
    );
}

#[test]
fn label_hands_on_the_error() {
    assert_eq!(
        get_utm_zone_from_lat_lon(Degrees::past(90), Degrees::exactly(0)),
        Err(UTMZoneError::InvalidLatitude(Degrees::past(90)))
    );
    assert_eq!(
        get_utm_zone_from_lat_lon(Degrees::exactly(0), Degrees::exactly(181)),
        Err(UTMZoneError::InvalidLongitude(Degrees::exactly(181)))
    );
    assert_eq!(
        get_utm_zone_from_lat_lon(Degrees::exactly(84), Degrees::exactly(15)),
        Err(UTMZoneError::InvalidLatitude(Degrees::exactly(84)))
    );
}

#[test]
fn comparisons_with_whole_degrees() {
    let exact = Degrees::exactly(55);
    assert!(!exact.is_above(55));
    assert!(exact.is_at_least(55));
    assert!(exact.is_at_most(55));
    assert!(!exact.is_below(55));
    assert!(exact.is_below(56));
    assert!(exact.is_above(54));
    let between = Degrees::past(55);
    assert!(between.is_above(55));
    assert!(between.is_at_least(55));
    assert!(!between.is_at_most(55));
    assert!(between.is_below(56));
    assert!(between.is_at_most(56));
    assert!(!between.is_at_least(56));
    let south = Degrees::past(-76);
    assert!(south.is_above(-76));
    assert!(south.is_below(-75));
    assert_eq!(south, Degrees { whole: -76, fraction: true });
    assert_eq!(exact, Degrees { whole: 55, fraction: false });
}
