use cbuilder::ami::{get_amazon_linux_2_ami, newest, AmiCandidate};
use cbuilder::bootstrap::BootstrapErrors;

fn candidate(id: Option<&str>, date: Option<&str>) -> AmiCandidate {
    AmiCandidate {
        image_id: id.map(|text| text.to_owned()),
        creation_date: date.map(|text| text.to_owned()),
    }
}

#[test]
fn linux_amis_should_return_newest_ami() {
    let images = vec![
        candidate(Some("image1"), Some("2019-10-31T06:01:09.000Z")),
        candidate(Some("image2"), Some("2019-10-31T06:01:10.000Z")),
    ];

    let result = get_amazon_linux_2_ami(images);
    assert_eq!(result.unwrap(), "image2".to_owned());
}

#[test]
fn linux_amis_errors_with_malformed_image() {
    let result = get_amazon_linux_2_ami(vec![]);
    assert_eq!(result.is_err(), true);
}

#[test]
fn linux_amis_errors_with_missing_creation_dates() {
    let images = vec![candidate(None, Some("2019-10-31T06:01:09.000Z"))];

    let result = get_amazon_linux_2_ami(images);
    assert_eq!(result.is_err(), true);
}

#[test]
fn one_malformed_candidate_fails_the_whole_list() {
    let good = || candidate(Some("image1"), Some("2019-10-31T06:01:09.000Z"));
    assert_eq!(
        get_amazon_linux_2_ami(vec![good(), candidate(Some("image2"), None), good()]),
        Err(BootstrapErrors::FailedFindAmi)
    );
    assert_eq!(
        get_amazon_linux_2_ami(vec![good(), good(), candidate(None, Some("2020-01-01T00:00:00Z"))]),
        Err(BootstrapErrors::FailedFindAmi)
    );
    assert_eq!(
        get_amazon_linux_2_ami(vec![candidate(Some("image2"), Some("yesterday")), good()]),
        Err(BootstrapErrors::FailedFindAmi)
    );
}

#[test]
fn the_newest_wins_wherever_it_stands() {
    let images = vec![
        candidate(Some("b"), Some("2021-03-01T00:00:00Z")),
        candidate(Some("c"), Some("2022-07-15T12:30:00Z")),
        candidate(Some("a"), Some("2020-01-01T00:00:00Z")),
    ];
    assert_eq!(get_amazon_linux_2_ami(images), Ok("c".to_owned()));
}

#[test]
fn of_equally_new_candidates_the_first_wins() {
    let images = vec![
        candidate(Some("old"), Some("2020-01-01T00:00:00Z")),
        candidate(Some("first"), Some("2022-07-15T12:30:00Z")),
        candidate(Some("second"), Some("2022-07-15T12:30:00.000Z")),
    ];
    assert_eq!(get_amazon_linux_2_ami(images), Ok("first".to_owned()));
}

#[test]
fn dates_are_compared_as_moments_not_as_text() {
    let images = vec![
        candidate(Some("later"), Some("2019-10-31T06:00:00+01:00")),
        candidate(Some("earlier"), Some("2019-10-31T04:59:59Z")),
    ];
    assert_eq!(get_amazon_linux_2_ami(images), Ok("later".to_owned()));
    let images = vec![
        candidate(Some("nine"), Some("2019-10-31T06:01:09.900Z")),
        candidate(Some("ten"), Some("2019-10-31T06:01:10Z")),
        candidate(Some("nine-and-a-bit"), Some("2019-10-31T06:01:09.950Z")),
    ];
    assert_eq!(get_amazon_linux_2_ami(images), Ok("ten".to_owned()));
}

#[test]
fn newest_finds_the_first_of_the_latest() {
    assert_eq!(newest(&vec![]), None);
    assert_eq!(newest(&vec![(5, 0)]), Some(0));
    assert_eq!(newest(&vec![(5, 0), (5, 1), (4, 999), (5, 1)]), Some(1));
    assert_eq!(newest(&vec![(-3, 0), (-4, 7), (-3, 0)]), Some(0));
}
