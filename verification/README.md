# lolipop

An Emacs dynamic module (Windows) that draws an animated trail behind the
cursor on a composition layer attached to the frame's window, and a small
demonstration of composition animations.

- `src/` is the verified library:
  - `cursor`: the state kept between cursor updates and its transitions:
    when a layer must be (re)created, which trail a cursor update draws,
    and the bounded history of running animations;
  - `pace`: which corners of a trail lead and which follow, by direction;
  - `queue`: the bounded queue of running animations;
  - `scene`: the layout and keyframes of the demonstration scenes;
  - `timing`: time spans in 100-nanosecond ticks and the frame rate;
  - `window`: what the demonstration window does with a message.
- `app/` holds the Emacs module entry points, the composition calls, the
  floating-point easing of the trail keyframes and the demonstration window.
- `tests/` exercises the library.
