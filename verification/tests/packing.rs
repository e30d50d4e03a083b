use sha_builder::gate::{
    assign_threads_sha, CellValue, Context, LaneType, LayoutError, ShaThreadBuilder,
};

fn lane(lane_type: LaneType, id: usize, values: Vec<u64>) -> Context {
    Context {
        lane_type,
        context_id: id,
        phase: 0,
        advice: values,
    }
}

#[test]
fn packing_shape_ten_cells_four_columns() {
    // One lane pair with 10 cells at column width 4: cell i lands at
    // (row i / 4, column i % 4), and rows 0, 1, 2 are consumed.
    let dense = vec![lane(LaneType::Dense, 0, (0..10).collect())];
    let spread = vec![lane(LaneType::Spread, 0, (100..110).collect())];
    let (placements, copies) = assign_threads_sha(&dense, &spread, 4, false, false).unwrap();
    assert_eq!(placements.len(), 10);
    for (i, p) in placements.iter().enumerate() {
        assert_eq!(p.row, i / 4);
        assert_eq!(p.column, i % 4);
        assert_eq!(p.lane, 0);
        assert_eq!(p.offset, i);
        assert_eq!(p.dense, CellValue::Known(i as u64));
        assert_eq!(p.spread, CellValue::Known(100 + i as u64));
    }
    assert_eq!(placements[9].row, 2);
    assert_eq!(placements[9].column, 1);
    let rows: std::collections::BTreeSet<usize> = placements.iter().map(|p| p.row).collect();
    assert_eq!(rows.into_iter().collect::<Vec<_>>(), vec![0, 1, 2]);
    assert!(copies.is_empty());
}

#[test]
fn packing_walks_lane_pairs_in_creation_order() {
    // Two lane pairs of 3 and 2 cells at width 2: the running counter
    // carries across the pair boundary.
    let dense = vec![
        lane(LaneType::Dense, 0, vec![10, 11, 12]),
        lane(LaneType::Dense, 1, vec![13, 14]),
    ];
    let spread = vec![
        lane(LaneType::Spread, 0, vec![20, 21, 22]),
        lane(LaneType::Spread, 1, vec![23, 24]),
    ];
    let (placements, _) = assign_threads_sha(&dense, &spread, 2, false, false).unwrap();
    assert_eq!(placements.len(), 5);
    let slots: Vec<(usize, usize)> = placements.iter().map(|p| (p.row, p.column)).collect();
    assert_eq!(slots, vec![(0, 0), (0, 1), (1, 0), (1, 1), (2, 0)]);
    assert_eq!(placements[3].lane, 1);
    assert_eq!(placements[3].offset, 0);
    assert_eq!(placements[3].dense, CellValue::Known(13));
}

#[test]
fn determinism_across_modes() {
    // The same lane shapes under placeholder and concrete visibility get
    // identical slots; only the stored values differ.
    let dense = vec![
        lane(LaneType::Dense, 0, vec![1, 2, 3, 4, 5]),
        lane(LaneType::Dense, 1, vec![6, 7]),
    ];
    let spread = vec![
        lane(LaneType::Spread, 0, vec![11, 12, 13, 14, 15]),
        lane(LaneType::Spread, 1, vec![16, 17]),
    ];
    let (concrete, _) = assign_threads_sha(&dense, &spread, 3, false, false).unwrap();
    let (placeholder, _) = assign_threads_sha(&dense, &spread, 3, true, false).unwrap();
    assert_eq!(concrete.len(), placeholder.len());
    for (c, p) in concrete.iter().zip(placeholder.iter()) {
        assert_eq!((c.row, c.column, c.lane, c.offset), (p.row, p.column, p.lane, p.offset));
        assert_eq!(p.dense, CellValue::Placeholder);
        assert_eq!(p.spread, CellValue::Placeholder);
        assert_ne!(c.dense, CellValue::Placeholder);
    }
}

#[test]
fn fatal_mismatch_five_against_four() {
    // A dense lane of length 5 paired with a spread lane of length 4
    // aborts packing before any slot is written.
    let dense = vec![lane(LaneType::Dense, 0, vec![1, 2, 3, 4, 5])];
    let spread = vec![lane(LaneType::Spread, 0, vec![1, 2, 3, 4])];
    let r = assign_threads_sha(&dense, &spread, 4, false, true);
    assert_eq!(r, Err(LayoutError::LaneLengthMismatch { lane: 0 }));
}

#[test]
fn fatal_mismatch_lane_counts() {
    let dense = vec![lane(LaneType::Dense, 0, vec![1])];
    let spread: Vec<Context> = vec![];
    let r = assign_threads_sha(&dense, &spread, 4, false, false);
    assert_eq!(r, Err(LayoutError::LaneCountMismatch));
}

#[test]
fn mismatch_reports_first_bad_pair() {
    let dense = vec![
        lane(LaneType::Dense, 0, vec![1, 2]),
        lane(LaneType::Dense, 1, vec![3]),
    ];
    let spread = vec![
        lane(LaneType::Spread, 0, vec![1, 2]),
        lane(LaneType::Spread, 1, vec![3, 4]),
    ];
    let r = assign_threads_sha(&dense, &spread, 1, false, false);
    assert_eq!(r, Err(LayoutError::LaneLengthMismatch { lane: 1 }));
}

#[test]
fn copy_entries_record_cell_identities_in_order() {
    let dense = vec![lane(LaneType::Dense, 0, vec![7, 8])];
    let spread = vec![lane(LaneType::Spread, 0, vec![9, 10])];
    let (_, copies) = assign_threads_sha(&dense, &spread, 2, false, true).unwrap();
    assert_eq!(copies.len(), 4);
    let (cell, slot) = copies[0];
    assert_eq!(cell.lane_type, LaneType::Dense);
    assert_eq!(cell.context_id, 0);
    assert_eq!(cell.offset, 0);
    assert_eq!((slot.row, slot.column), (0, 0));
    let (cell, slot) = copies[3];
    assert_eq!(cell.lane_type, LaneType::Spread);
    assert_eq!(cell.offset, 1);
    assert_eq!((slot.row, slot.column), (0, 1));
}

#[test]
fn assign_raw_tracks_copies_only_outside_witness_gen() {
    let mut b = ShaThreadBuilder::keygen();
    let d = b.new_thread_dense();
    let s = b.new_thread_spread();
    b.threads_dense[d].advice.extend_from_slice(&[1, 2, 3]);
    b.threads_spread[s].advice.extend_from_slice(&[4, 5, 6]);
    let placements = b.assign_raw(2).unwrap();
    assert_eq!(placements.len(), 3);
    assert_eq!(b.core.copy_manager.assigned_advices.len(), 6);

    let mut p = ShaThreadBuilder::prover();
    let d = p.new_thread_dense();
    let s = p.new_thread_spread();
    p.threads_dense[d].advice.extend_from_slice(&[1, 2, 3]);
    p.threads_spread[s].advice.extend_from_slice(&[4, 5, 6]);
    let placements = p.assign_raw(2).unwrap();
    assert_eq!(placements.len(), 3);
    assert!(p.core.copy_manager.assigned_advices.is_empty());
}
