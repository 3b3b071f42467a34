use poly_commit::{LabeledCommitment, PCCommitment};

/// A commitment of four words, written little-endian, one after the other.
#[derive(Clone, Debug, PartialEq, Eq)]
struct Words {
    words: [u32; 4],
    bounded: bool,
}

impl PCCommitment for Words {
    fn empty() -> Self {
        Words { words: [0; 4], bounded: false }
    }

    fn has_degree_bound(&self) -> bool {
        self.bounded
    }

    fn size_in_bytes(&self) -> usize {
        16
    }

    fn to_bytes(&self) -> Vec<u8> {
        let mut bytes = Vec::new();
        for word in self.words {
            bytes.extend_from_slice(&word.to_le_bytes());
        }
        bytes
    }
}

fn sample() -> Words {
    Words { words: [0x0102_0304, 0xdead_beef, 7, 0xffff_ffff], bounded: true }
}

#[test]
fn labeled_commitment_is_written_as_its_commitment() {
    let commitment = sample();
    let alone = commitment.to_bytes();
    assert_eq!(
        alone,
        vec![4, 3, 2, 1, 0xef, 0xbe, 0xad, 0xde, 7, 0, 0, 0, 0xff, 0xff, 0xff, 0xff]
    );

    let labeled = LabeledCommitment::new("c".to_string(), commitment, Some(5));
    assert_eq!(labeled.to_bytes(), alone);
}

#[test]
fn label_and_bound_leave_no_trace_in_the_bytes() {
    let alone = sample().to_bytes();
    for label in ["", "c", "a much longer label than the commitment itself"] {
        for degree_bound in [None, Some(0), Some(usize::MAX)] {
            let labeled = LabeledCommitment::new(label.to_string(), sample(), degree_bound);
            assert_eq!(labeled.to_bytes(), alone);
        }
    }
}

#[test]
fn write_appends_the_bytes_of_the_commitment() {
    let labeled = LabeledCommitment::new("c".to_string(), sample(), None);
    let mut sink = Vec::new();
    labeled.write(&mut sink);
    assert_eq!(sink, sample().to_bytes());

    // what the sink held stays in front
    let mut sink = vec![0xaa, 0xbb];
    labeled.write(&mut sink);
    labeled.write(&mut sink);
    let mut expected = vec![0xaa, 0xbb];
    expected.extend(sample().to_bytes());
    expected.extend(sample().to_bytes());
    assert_eq!(sink, expected);
    assert_eq!(sink.len(), 2 + 16 + 16);
}

#[test]
fn labeled_commitment_returns_what_it_was_given() {
    let labeled = LabeledCommitment::new("c0".to_string(), sample(), Some(5));
    assert_eq!(labeled.label(), "c0");
    assert_eq!(labeled.commitment(), &sample());
    assert_eq!(labeled.degree_bound(), Some(5));

    let unbounded = LabeledCommitment::new("".to_string(), Words::empty(), None);
    assert_eq!(unbounded.label(), "");
    assert_eq!(unbounded.commitment(), &Words::empty());
    assert_eq!(unbounded.degree_bound(), None);
}

#[test]
fn degree_bound_of_the_label_is_not_checked_against_the_commitment() {
    // the commitment reports no degree bound, the labeling carries one
    let labeled = LabeledCommitment::new("c".to_string(), Words::empty(), Some(3));
    assert!(!labeled.commitment().has_degree_bound());
    assert_eq!(labeled.degree_bound(), Some(3));
}

#[test]
fn clone_of_a_labeled_commitment_holds_the_same() {
    let labeled = LabeledCommitment::new("c".to_string(), sample(), Some(5));
    let copy = labeled.clone();
    drop(labeled);
    assert_eq!(copy.label(), "c");
    assert_eq!(copy.commitment(), &sample());
    assert_eq!(copy.degree_bound(), Some(5));
    assert_eq!(copy.to_bytes(), sample().to_bytes());
}

#[test]
fn empty_commitment_has_no_degree_bound() {
    assert!(!Words::empty().has_degree_bound());
    let labeled = LabeledCommitment::new("zero".to_string(), Words::empty(), None);
    assert!(!labeled.commitment().has_degree_bound());
}

#[test]
fn empty_commitment_has_a_fixed_size() {
    let first = Words::empty();
    let second = Words::empty();
    assert_eq!(first.size_in_bytes(), 16);
    assert_eq!(first.size_in_bytes(), 16);
    assert_eq!(second.size_in_bytes(), 16);
    assert_eq!(first.to_bytes(), vec![0u8; 16]);
    assert_eq!(first.to_bytes().len(), first.size_in_bytes());
}
